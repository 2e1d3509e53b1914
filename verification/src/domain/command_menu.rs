//! The slash-command catalog and the live preview menu state. Mapping a name to a behaviour belongs to
//! `application::command`. The preview filters by the canonical name or by any alias.
use vstd::prelude::*;
use crate::domain::nav::{wrapped, wrapping_step};
use crate::text::{
    ascii_lowercase, begins, chars_of, starts_with, string_of, strip_lead, to_ascii_lowercase,
    trim_start_char,
};

verus! {

/// One entry in the slash-command catalog. The name is the canonical token shown in the preview and the one
/// Tab completes to; the aliases are accepted synonyms at submit time; the blurb is the short pt-BR
/// description shown next to the name.
#[derive(Debug, Clone, Copy, PartialEq, Eq, Structural)]
pub enum CommandSpec {
    New,
    Resume,
    Sessions,
    Sync,
    Instructions,
    Rules,
    Commands,
    Agents,
    Skills,
    Hooks,
    ApproveHook,
    Mcp,
    ApproveMcp,
    Plan,
    Auto,
    Default,
    Cd,
    Provider,
    Models,
    Effort,
    Help,
    Exit,
}

/// The single source of truth for the preview. Order is the display order of the menu.
pub const COMMANDS: [CommandSpec; 22] = [
    CommandSpec::New,
    CommandSpec::Resume,
    CommandSpec::Sessions,
    CommandSpec::Sync,
    CommandSpec::Instructions,
    CommandSpec::Rules,
    CommandSpec::Commands,
    CommandSpec::Agents,
    CommandSpec::Skills,
    CommandSpec::Hooks,
    CommandSpec::ApproveHook,
    CommandSpec::Mcp,
    CommandSpec::ApproveMcp,
    CommandSpec::Plan,
    CommandSpec::Auto,
    CommandSpec::Default,
    CommandSpec::Cd,
    CommandSpec::Provider,
    CommandSpec::Models,
    CommandSpec::Effort,
    CommandSpec::Help,
    CommandSpec::Exit,
];

impl CommandSpec {
    pub open spec fn token(self) -> Seq<char> {
        match self {
            CommandSpec::New => "/new"@,
            CommandSpec::Resume => "/resume"@,
            CommandSpec::Sessions => "/sessions"@,
            CommandSpec::Sync => "/sync"@,
            CommandSpec::Instructions => "/instructions"@,
            CommandSpec::Rules => "/rules"@,
            CommandSpec::Commands => "/commands"@,
            CommandSpec::Agents => "/agents"@,
            CommandSpec::Skills => "/skills"@,
            CommandSpec::Hooks => "/hooks"@,
            CommandSpec::ApproveHook => "/approve-hook"@,
            CommandSpec::Mcp => "/mcp"@,
            CommandSpec::ApproveMcp => "/approve-mcp"@,
            CommandSpec::Plan => "/plan"@,
            CommandSpec::Auto => "/auto"@,
            CommandSpec::Default => "/default"@,
            CommandSpec::Cd => "/cd"@,
            CommandSpec::Provider => "/provider"@,
            CommandSpec::Models => "/models"@,
            CommandSpec::Effort => "/effort"@,
            CommandSpec::Help => "/help"@,
            CommandSpec::Exit => "/exit"@,
        }
    }

    /// The canonical token.
    pub fn name(self) -> (r: &'static str)
        ensures
            r@ == self.token(),
    {
        match self {
            CommandSpec::New => "/new",
            CommandSpec::Resume => "/resume",
            CommandSpec::Sessions => "/sessions",
            CommandSpec::Sync => "/sync",
            CommandSpec::Instructions => "/instructions",
            CommandSpec::Rules => "/rules",
            CommandSpec::Commands => "/commands",
            CommandSpec::Agents => "/agents",
            CommandSpec::Skills => "/skills",
            CommandSpec::Hooks => "/hooks",
            CommandSpec::ApproveHook => "/approve-hook",
            CommandSpec::Mcp => "/mcp",
            CommandSpec::ApproveMcp => "/approve-mcp",
            CommandSpec::Plan => "/plan",
            CommandSpec::Auto => "/auto",
            CommandSpec::Default => "/default",
            CommandSpec::Cd => "/cd",
            CommandSpec::Provider => "/provider",
            CommandSpec::Models => "/models",
            CommandSpec::Effort => "/effort",
            CommandSpec::Help => "/help",
            CommandSpec::Exit => "/exit",
        }
    }

    pub open spec fn synonyms(self) -> Seq<&'static str> {
        match self {
            CommandSpec::New => seq!["/novo"],
            CommandSpec::Resume => seq!["/retomar"],
            CommandSpec::Sessions => seq!["/sessoes"],
            CommandSpec::Instructions => seq!["/instrucoes"],
            CommandSpec::Rules => seq!["/regras"],
            CommandSpec::Commands => seq!["/comandos"],
            CommandSpec::Agents => seq!["/agentes"],
            CommandSpec::Default => seq!["/normal"],
            CommandSpec::Provider => seq!["/providers"],
            CommandSpec::Models => seq!["/modelos"],
            CommandSpec::Effort => seq!["/esforco"],
            CommandSpec::Help => seq!["/ajuda"],
            CommandSpec::Exit => seq!["/sair", "/quit"],
            _ => seq![],
        }
    }

    /// The accepted synonyms.
    pub fn aliases(self) -> (r: Vec<&'static str>)
        ensures
            r@ == self.synonyms(),
    {
        match self {
            CommandSpec::New => vec!["/novo"],
            CommandSpec::Resume => vec!["/retomar"],
            CommandSpec::Sessions => vec!["/sessoes"],
            CommandSpec::Instructions => vec!["/instrucoes"],
            CommandSpec::Rules => vec!["/regras"],
            CommandSpec::Commands => vec!["/comandos"],
            CommandSpec::Agents => vec!["/agentes"],
            CommandSpec::Default => vec!["/normal"],
            CommandSpec::Provider => vec!["/providers"],
            CommandSpec::Models => vec!["/modelos"],
            CommandSpec::Effort => vec!["/esforco"],
            CommandSpec::Help => vec!["/ajuda"],
            CommandSpec::Exit => vec!["/sair", "/quit"],
            _ => vec![],
        }
    }

    pub open spec fn summary(self) -> Seq<char> {
        match self {
            CommandSpec::New => "descarta a conversa e começa uma nova sessão"@,
            CommandSpec::Resume => "retoma a sessão mais recente deste workspace"@,
            CommandSpec::Sessions => "escolhe uma sessão anterior para retomar"@,
            CommandSpec::Sync => "envia config + memória ao seu repo privado (push)"@,
            CommandSpec::Instructions => "exibe as instruções ativas e os arquivos carregados"@,
            CommandSpec::Rules => "exibe as regras carregadas (rules globais/projeto)"@,
            CommandSpec::Commands => "exibe os comandos custom carregados (globais/projeto)"@,
            CommandSpec::Agents => "exibe os perfis de agente carregados"@,
            CommandSpec::Skills => "exibe as skills carregadas (use_skill busca o conteúdo)"@,
            CommandSpec::Hooks => "exibe os hooks carregados e seu estado de aprovação"@,
            CommandSpec::ApproveHook => "aprova um hook de projeto pendente: /approve-hook <id>"@,
            CommandSpec::Mcp => "exibe os servidores MCP carregados e seu estado de aprovação"@,
            CommandSpec::ApproveMcp => "aprova um servidor MCP de projeto pendente: /approve-mcp <id>"@,
            CommandSpec::Plan => "modo plan (só leitura; planeja e executa após aprovação)"@,
            CommandSpec::Auto => "modo auto (executa tudo sem pedir aprovação)"@,
            CommandSpec::Default => "modo default (pede aprovação para cada ação)"@,
            CommandSpec::Cd => "mostra ou muda o workspace ativo"@,
            CommandSpec::Provider => "troca o provider ativo (ou adiciona um novo)"@,
            CommandSpec::Models => "troca o modelo ativo"@,
            CommandSpec::Effort => "troca o nível de esforço (reasoning)"@,
            CommandSpec::Help => "mostra esta ajuda"@,
            CommandSpec::Exit => "encerra a sessão"@,
        }
    }

    /// The one-line description.
    pub fn blurb(self) -> (r: &'static str)
        ensures
            r@ == self.summary(),
    {
        match self {
            CommandSpec::New => "descarta a conversa e começa uma nova sessão",
            CommandSpec::Resume => "retoma a sessão mais recente deste workspace",
            CommandSpec::Sessions => "escolhe uma sessão anterior para retomar",
            CommandSpec::Sync => "envia config + memória ao seu repo privado (push)",
            CommandSpec::Instructions => "exibe as instruções ativas e os arquivos carregados",
            CommandSpec::Rules => "exibe as regras carregadas (rules globais/projeto)",
            CommandSpec::Commands => "exibe os comandos custom carregados (globais/projeto)",
            CommandSpec::Agents => "exibe os perfis de agente carregados",
            CommandSpec::Skills => "exibe as skills carregadas (use_skill busca o conteúdo)",
            CommandSpec::Hooks => "exibe os hooks carregados e seu estado de aprovação",
            CommandSpec::ApproveHook => "aprova um hook de projeto pendente: /approve-hook <id>",
            CommandSpec::Mcp => "exibe os servidores MCP carregados e seu estado de aprovação",
            CommandSpec::ApproveMcp => "aprova um servidor MCP de projeto pendente: /approve-mcp <id>",
            CommandSpec::Plan => "modo plan (só leitura; planeja e executa após aprovação)",
            CommandSpec::Auto => "modo auto (executa tudo sem pedir aprovação)",
            CommandSpec::Default => "modo default (pede aprovação para cada ação)",
            CommandSpec::Cd => "mostra ou muda o workspace ativo",
            CommandSpec::Provider => "troca o provider ativo (ou adiciona um novo)",
            CommandSpec::Models => "troca o modelo ativo",
            CommandSpec::Effort => "troca o nível de esforço (reasoning)",
            CommandSpec::Help => "mostra esta ajuda",
            CommandSpec::Exit => "encerra a sessão",
        }
    }
}


/// What a typed prefix asks for: the text behind the slash, whatever its case.
pub open spec fn menu_query(prefix: Seq<char>) -> Seq<char> {
    ascii_lowercase(strip_lead(prefix, '/'))
}

/// A token (with its leading slash) answers a query when the name behind the slash begins with it.
pub open spec fn token_answers(token: Seq<char>, query: Seq<char>) -> bool {
    begins(ascii_lowercase(token.skip(1)), query)
}

/// A catalog entry answers a query by its name or by an alias; the blurb never counts.
pub open spec fn spec_answers(spec: CommandSpec, query: Seq<char>) -> bool {
    token_answers(spec.token(), query) || exists|k: int|
        0 <= k < spec.synonyms().len() && token_answers(#[trigger] spec.synonyms()[k]@, query)
}

/// The positions below `n` at which `p` holds, in order.
pub open spec fn positions(n: nat, p: spec_fn(int) -> bool) -> Seq<int>
    decreases n,
{
    if n == 0 {
        Seq::empty()
    } else {
        let before = positions((n - 1) as nat, p);
        if p(n - 1) {
            before.push(n - 1)
        } else {
            before
        }
    }
}

/// The positions are in range, rising, and exactly those at which `p` holds.
pub proof fn positions_are_exact(n: nat, p: spec_fn(int) -> bool)
    ensures
        positions(n, p).len() <= n,
        forall|k: int|
            0 <= k < positions(n, p).len() ==> 0 <= #[trigger] positions(n, p)[k] < n && p(
                positions(n, p)[k],
            ),
        forall|j: int, k: int|
            0 <= j < k < positions(n, p).len() ==> #[trigger] positions(n, p)[j]
                < #[trigger] positions(n, p)[k],
        forall|i: int| 0 <= i < n && #[trigger] p(i) ==> positions(n, p).contains(i),
    decreases n,
{
    if n > 0 {
        positions_are_exact((n - 1) as nat, p);
        let before = positions((n - 1) as nat, p);
        let all = positions(n, p);
        assert forall|i: int| 0 <= i < n && #[trigger] p(i) implies all.contains(i) by {
            if i < n - 1 {
                let k = choose|k: int| 0 <= k < before.len() && before[k] == i;
                assert(all[k] == i);
            } else {
                assert(all.last() == i);
            }
        }
    }
}

/// The catalog rows that answer a query.
pub open spec fn catalog_rows(query: Seq<char>) -> Seq<int> {
    positions(COMMANDS@.len(), |i: int| spec_answers(COMMANDS@[i], query))
}

fn query_of(prefix: &str) -> (r: String)
    ensures
        r@ == menu_query(prefix@),
{
    to_ascii_lowercase(trim_start_char(prefix, '/').as_str())
}

fn answers(token: &str, query: &str) -> (r: bool)
    requires
        token@.len() > 0,
    ensures
        r == token_answers(token@, query@),
{
    let chars: Vec<char> = chars_of(token);
    let name: String = string_of(&chars, 1, chars.len());
    assert(name@ =~= token@.skip(1));
    starts_with(to_ascii_lowercase(name.as_str()).as_str(), query)
}

/// Every catalog token and alias is a slash and a name.
pub proof fn tokens_are_slashed(spec: CommandSpec)
    ensures
        spec.token().len() > 1 && spec.token()[0] == '/',
        forall|k: int|
            0 <= k < spec.synonyms().len() ==> (#[trigger] spec.synonyms()[k])@.len() > 1
                && spec.synonyms()[k]@[0] == '/',
{
    reveal_strlit("/new");
    reveal_strlit("/novo");
    reveal_strlit("/resume");
    reveal_strlit("/retomar");
    reveal_strlit("/sessions");
    reveal_strlit("/sessoes");
    reveal_strlit("/sync");
    reveal_strlit("/instructions");
    reveal_strlit("/instrucoes");
    reveal_strlit("/rules");
    reveal_strlit("/regras");
    reveal_strlit("/commands");
    reveal_strlit("/comandos");
    reveal_strlit("/agents");
    reveal_strlit("/agentes");
    reveal_strlit("/skills");
    reveal_strlit("/hooks");
    reveal_strlit("/approve-hook");
    reveal_strlit("/mcp");
    reveal_strlit("/approve-mcp");
    reveal_strlit("/plan");
    reveal_strlit("/auto");
    reveal_strlit("/default");
    reveal_strlit("/normal");
    reveal_strlit("/cd");
    reveal_strlit("/provider");
    reveal_strlit("/providers");
    reveal_strlit("/models");
    reveal_strlit("/modelos");
    reveal_strlit("/effort");
    reveal_strlit("/esforco");
    reveal_strlit("/help");
    reveal_strlit("/ajuda");
    reveal_strlit("/exit");
    reveal_strlit("/sair");
    reveal_strlit("/quit");
}

fn spec_hit(spec: CommandSpec, query: &str) -> (r: bool)
    ensures
        r == spec_answers(spec, query@),
{
    proof {
        tokens_are_slashed(spec);
    }
    if answers(spec.name(), query) {
        return true;
    }
    let aliases: Vec<&'static str> = spec.aliases();
    let mut k: usize = 0;
    while k < aliases.len()
        invariant
            k <= aliases@.len(),
            aliases@ == spec.synonyms(),
            forall|j: int|
                0 <= j < aliases@.len() ==> (#[trigger] spec.synonyms()[j])@.len() > 1,
            forall|j: int| 0 <= j < k ==> !token_answers(#[trigger] spec.synonyms()[j]@, query@),
        decreases aliases@.len() - k,
    {
        assert(spec.synonyms()[k as int]@.len() > 1);
        if answers(aliases[k], query) {
            return true;
        }
        k = k + 1;
    }
    false
}

/// Return the indices of the commands whose canonical name or any alias starts with `prefix` (after the
/// leading slash is stripped). The one-line blurb is display-only and never drives the filter, so typing `/n`
/// matches `/new` (and its alias `/novo`) rather than every command whose description happens to contain the
/// letter `n`. An empty query (just `/`) matches the whole catalog. Matching is case-insensitive.
pub fn filter(prefix: &str) -> (r: Vec<usize>)
    ensures
        r@.len() == catalog_rows(menu_query(prefix@)).len(),
        forall|k: int|
            0 <= k < r@.len() ==> (#[trigger] r@[k]) == catalog_rows(menu_query(prefix@))[k] && r@[k]
                < COMMANDS@.len(),
{
    let query: String = query_of(prefix);
    let ghost p = |i: int| spec_answers(COMMANDS@[i], query@);
    let mut out: Vec<usize> = Vec::new();
    let mut i: usize = 0;
    let n: usize = COMMANDS.len();
    while i < n
        invariant
            i <= n,
            n == COMMANDS@.len(),
            p == (|i: int| spec_answers(COMMANDS@[i], query@)),
            out@.len() == positions(i as nat, p).len(),
            forall|k: int|
                0 <= k < out@.len() ==> (#[trigger] out@[k]) == positions(i as nat, p)[k] && out@[k]
                    < COMMANDS@.len(),
        decreases n - i,
    {
        if spec_hit(COMMANDS[i], query.as_str()) {
            assert(p(i as int));
            out.push(i);
        } else {
            assert(!p(i as int));
        }
        i = i + 1;
    }
    out
}

/// One extension-provided custom slash command surfaced in the live preview alongside the built-ins. Aliases
/// still resolve at submit time; the preview matches on the canonical name only.
#[derive(Debug, Clone, PartialEq, Eq)]
pub struct CustomCommandEntry {
    pub name: String,
    pub blurb: String,
}

/// What a preview row shows, a name, its synonyms, and a blurb, and which catalog it comes from.
pub struct EntryView {
    pub custom: bool,
    pub name: Seq<char>,
    pub aliases: Seq<Seq<char>>,
    pub blurb: Seq<char>,
}

/// The preview row of a catalog entry.
pub open spec fn spec_entry(spec: CommandSpec) -> EntryView {
    EntryView {
        custom: false,
        name: spec.token(),
        aliases: spec.synonyms().map_values(|a: &'static str| a@),
        blurb: spec.summary(),
    }
}

impl View for CustomCommandEntry {
    type V = EntryView;

    open spec fn view(&self) -> EntryView {
        EntryView { custom: true, name: self.name@, aliases: Seq::empty(), blurb: self.blurb@ }
    }
}

/// The contents of each custom command of a list.
pub open spec fn entry_views(v: Seq<CustomCommandEntry>) -> Seq<EntryView> {
    Seq::new(v.len(), |i: int| v[i]@)
}

/// A custom command answers a query when its name, behind its slashes, begins with it.
pub open spec fn custom_answers(name: Seq<char>, query: Seq<char>) -> bool {
    begins(menu_query(name), query)
}

/// The custom commands that answer a query.
pub open spec fn custom_rows(custom: Seq<EntryView>, query: Seq<char>) -> Seq<int> {
    positions(custom.len(), |i: int| custom_answers(custom[i].name, query))
}

fn filter_custom(prefix: &str, custom: &Vec<CustomCommandEntry>) -> (r: Vec<usize>)
    ensures
        r@.len() == custom_rows(entry_views(custom@), menu_query(prefix@)).len(),
        forall|k: int|
            0 <= k < r@.len() ==> (#[trigger] r@[k]) == custom_rows(
                entry_views(custom@),
                menu_query(prefix@),
            )[k] && r@[k] < custom@.len(),
{
    let query: String = query_of(prefix);
    let ghost v = entry_views(custom@);
    let ghost p = |i: int| custom_answers(v[i].name, query@);
    let mut out: Vec<usize> = Vec::new();
    let mut i: usize = 0;
    while i < custom.len()
        invariant
            i <= custom@.len(),
            v == entry_views(custom@),
            p == (|i: int| custom_answers(v[i].name, query@)),
            out@.len() == positions(i as nat, p).len(),
            forall|k: int|
                0 <= k < out@.len() ==> (#[trigger] out@[k]) == positions(i as nat, p)[k] && out@[k]
                    < custom@.len(),
        decreases custom@.len() - i,
    {
        if starts_with(query_of(custom[i].name.as_str()).as_str(), query.as_str()) {
            assert(p(i as int));
            out.push(i);
        } else {
            assert(!p(i as int));
        }
        i = i + 1;
    }
    out
}

/// A resolved preview row: a built-in command or an extension-provided one. Both display the same way; only
/// the source differs.
#[derive(Debug, Clone, Copy)]
pub enum MenuEntry<'a> {
    Static(CommandSpec),
    Custom(&'a CustomCommandEntry),
}

impl<'a> MenuEntry<'a> {
    /// What the row shows, and whether the custom commands or the built-in ones gave it.
    pub open spec fn shown(self) -> EntryView {
        match self {
            MenuEntry::Static(spec) => spec_entry(spec),
            MenuEntry::Custom(entry) => entry@,
        }
    }

    pub fn name(&self) -> (r: &str)
        ensures
            r@ == self.shown().name,
    {
        match self {
            MenuEntry::Static(spec) => spec.name(),
            MenuEntry::Custom(entry) => entry.name.as_str(),
        }
    }

    /// The synonyms that a submitted line may use; extension commands list none.
    pub fn aliases(&self) -> (r: Vec<&'static str>)
        ensures
            r@.map_values(|a: &'static str| a@) == self.shown().aliases,
    {
        match self {
            MenuEntry::Static(spec) => spec.aliases(),
            MenuEntry::Custom(_) => {
                let none: Vec<&'static str> = Vec::new();
                assert(none@.map_values(|a: &'static str| a@) =~= Seq::<Seq<char>>::empty());
                none
            },
        }
    }

    pub fn blurb(&self) -> (r: &str)
        ensures
            r@ == self.shown().blurb,
    {
        match self {
            MenuEntry::Static(spec) => spec.blurb(),
            MenuEntry::Custom(entry) => entry.blurb.as_str(),
        }
    }
}

/// Which catalog a filtered row's index resolves against.
#[derive(Debug, Clone, Copy, PartialEq, Eq, Structural)]
enum Source {
    Static(usize),
    Custom(usize),
}

/// What the preview shows for a typed prefix: the built-ins that answer, then the custom commands that do.
pub open spec fn preview(prefix: Seq<char>, custom: Seq<EntryView>) -> Seq<EntryView> {
    let query = menu_query(prefix);
    catalog_rows(query).map_values(|i: int| spec_entry(COMMANDS@[i])) + custom_rows(custom, query).map_values(|i: int| custom[i])
}

/// The live preview shown while the buffer is a slash command in progress. `filtered` resolves against the
/// built-in catalog or the snapshot of extension-provided commands taken at `open`; `selected` is the
/// highlighted row.
#[derive(Debug, PartialEq, Eq)]
pub struct CommandMenu {
    custom: Vec<CustomCommandEntry>,
    filtered: Vec<Source>,
    selected: usize,
}

/// The rows on display, the highlighted one, and the custom commands that the rows are drawn from.
pub struct MenuView {
    pub custom: Seq<EntryView>,
    pub rows: Seq<EntryView>,
    pub selected: int,
}

impl MenuView {
    /// The highlight is on a row, or there is none.
    pub open spec fn wf(self) -> bool {
        0 <= self.selected && (self.selected < self.rows.len() || (self.rows.len() == 0
            && self.selected == 0))
    }

    /// A menu just opened for a prefix.
    pub open spec fn opened(prefix: Seq<char>, custom: Seq<EntryView>) -> MenuView {
        MenuView { custom, rows: preview(prefix, custom), selected: 0 }
    }

    /// The menu filtered anew for a prefix; the highlight stays, or falls back to the last row.
    pub open spec fn refreshed(self, prefix: Seq<char>) -> MenuView {
        let rows = preview(prefix, self.custom);
        MenuView {
            rows,
            selected: if rows.len() == 0 {
                0
            } else if self.selected >= rows.len() {
                rows.len() - 1
            } else {
                self.selected
            },
            ..self
        }
    }
}

impl View for CommandMenu {
    type V = MenuView;

    closed spec fn view(&self) -> MenuView {
        MenuView {
            custom: entry_views(self.custom@),
            rows: shown_rows(self.filtered@, entry_views(self.custom@)),
            selected: self.selected as int,
        }
    }
}

closed spec fn shown_row(source: Source, custom: Seq<EntryView>) -> EntryView {
    match source {
        Source::Static(i) => spec_entry(COMMANDS@[i as int]),
        Source::Custom(i) => custom[i as int],
    }
}

closed spec fn shown_rows(filtered: Seq<Source>, custom: Seq<EntryView>) -> Seq<EntryView> {
    Seq::new(filtered.len(), |k: int| shown_row(filtered[k], custom))
}

closed spec fn in_range(source: Source, customs: nat) -> bool {
    match source {
        Source::Static(i) => i < COMMANDS@.len(),
        Source::Custom(i) => i < customs,
    }
}

fn recompute(prefix: &str, custom: &Vec<CustomCommandEntry>) -> (r: Vec<Source>)
    ensures
        shown_rows(r@, entry_views(custom@)) == preview(prefix@, entry_views(custom@)),
        forall|k: int| 0 <= k < r@.len() ==> in_range(#[trigger] r@[k], custom@.len()),
{
    let ghost v = entry_views(custom@);
    let ghost query = menu_query(prefix@);
    let built_in: Vec<usize> = filter(prefix);
    let added: Vec<usize> = filter_custom(prefix, custom);
    let mut out: Vec<Source> = Vec::new();
    let mut i: usize = 0;
    while i < built_in.len()
        invariant
            i <= built_in@.len(),
            out@.len() == i,
            forall|k: int|
                0 <= k < built_in@.len() ==> (#[trigger] built_in@[k]) < COMMANDS@.len(),
            forall|k: int| 0 <= k < i ==> #[trigger] out@[k] == Source::Static(built_in@[k]),
        decreases built_in@.len() - i,
    {
        out.push(Source::Static(built_in[i]));
        i = i + 1;
    }
    let mut j: usize = 0;
    while j < added.len()
        invariant
            j <= added@.len(),
            out@.len() == built_in@.len() + j,
            forall|k: int|
                0 <= k < built_in@.len() ==> #[trigger] out@[k] == Source::Static(built_in@[k]),
            forall|k: int|
                built_in@.len() <= k < built_in@.len() + j ==> #[trigger] out@[k] == Source::Custom(
                    added@[k - built_in@.len()],
                ),
        decreases added@.len() - j,
    {
        out.push(Source::Custom(added[j]));
        j = j + 1;
    }
    assert(shown_rows(out@, v) =~= preview(prefix@, v));
    out
}

impl CommandMenu {
    /// The menu is consistent: each row resolves, and the highlight is on one.
    pub closed spec fn wf(self) -> bool {
        &&& self@.wf()
        &&& forall|k: int|
            0 <= k < self.filtered@.len() ==> in_range(#[trigger] self.filtered@[k], self.custom@.len())
    }

    /// A consistent menu has its highlight on a row, or shows none.
    pub proof fn wf_shows(self)
        requires
            self.wf(),
        ensures
            self@.wf(),
    {
    }

    /// Open with the filtered set for `prefix` and the first row highlighted. `custom` is snapshotted once
    /// here (extension commands are loaded once at boot and never change mid-session).
    pub fn open(prefix: &str, custom: &Vec<CustomCommandEntry>) -> (r: CommandMenu)
        ensures
            r@ == MenuView::opened(prefix@, entry_views(custom@)),
            r.wf(),
    {
        let mut snapshot: Vec<CustomCommandEntry> = Vec::new();
        let mut i: usize = 0;
        while i < custom.len()
            invariant
                i <= custom@.len(),
                snapshot@.len() == i,
                forall|k: int| 0 <= k < i ==> (#[trigger] snapshot@[k])@ == custom@[k]@,
            decreases custom@.len() - i,
        {
            snapshot.push(
                CustomCommandEntry { name: custom[i].name.clone(), blurb: custom[i].blurb.clone() },
            );
            i = i + 1;
        }
        assert(entry_views(snapshot@) =~= entry_views(custom@));
        let filtered: Vec<Source> = recompute(prefix, &snapshot);
        CommandMenu { custom: snapshot, filtered, selected: 0 }
    }

    /// Recompute the filter for a new `prefix`, keeping the selection in range.
    pub fn refresh(&mut self, prefix: &str)
        requires
            old(self).wf(),
        ensures
            final(self)@ == old(self)@.refreshed(prefix@),
            final(self).wf(),
    {
        self.filtered = recompute(prefix, &self.custom);
        if self.filtered.len() == 0 {
            self.selected = 0;
        } else if self.selected >= self.filtered.len() {
            self.selected = self.filtered.len() - 1;
        }
    }

    /// Move the highlight by `delta` rows, wrapping within the filtered set.
    pub fn move_cursor(&mut self, delta: i32)
        requires
            old(self).wf(),
        ensures
            final(self)@ == (MenuView {
                selected: wrapped(
                    old(self)@.selected,
                    delta as int,
                    old(self)@.rows.len() as int,
                ),
                ..old(self)@
            }),
            final(self).wf(),
    {
        self.selected = wrapping_step(self.selected, delta, self.filtered.len());
    }

    fn resolve(&self, source: Source) -> (r: MenuEntry<'_>)
        requires
            in_range(source, self.custom@.len()),
        ensures
            r.shown() == shown_row(source, entry_views(self.custom@)),
    {
        match source {
            Source::Static(i) => MenuEntry::Static(COMMANDS[i]),
            Source::Custom(i) => MenuEntry::Custom(&self.custom[i]),
        }
    }

    /// The entry of the highlighted row, if any.
    pub fn entry(&self) -> (r: Option<MenuEntry<'_>>)
        requires
            self.wf(),
        ensures
            r is None <==> self@.rows.len() == 0,
            r matches Some(e) ==> e.shown() == self@.rows[self@.selected],
    {
        self.row(self.selected)
    }

    /// The entry at a given display row, for rendering the whole filtered list.
    pub fn row(&self, row: usize) -> (r: Option<MenuEntry<'_>>)
        requires
            self.wf(),
        ensures
            r is Some <==> row < self@.rows.len(),
            r matches Some(e) ==> e.shown() == self@.rows[row as int],
    {
        if row < self.filtered.len() {
            assert(in_range(self.filtered@[row as int], self.custom@.len()));
            Some(self.resolve(self.filtered[row]))
        } else {
            None
        }
    }

    pub fn len(&self) -> (r: usize)
        ensures
            r == self@.rows.len(),
    {
        self.filtered.len()
    }

    pub fn selected(&self) -> (r: usize)
        ensures
            r == self@.selected,
    {
        self.selected
    }

    pub fn is_empty(&self) -> (r: bool)
        ensures
            r == (self@.rows.len() == 0),
    {
        self.filtered.len() == 0
    }
}

/// A bare slash, or nothing, lists the whole catalog in its order.
pub proof fn bare_slash_lists_everything(n: nat)
    requires
        n <= COMMANDS@.len(),
    ensures
        menu_query(seq!['/']).len() == 0,
        menu_query(Seq::<char>::empty()).len() == 0,
        positions(n, |i: int| spec_answers(COMMANDS@[i], Seq::<char>::empty())) == Seq::new(
            n,
            |i: int| i,
        ),
    decreases n,
{
    assert(strip_lead(seq!['/'].skip(1), '/') =~= Seq::<char>::empty());
    assert(strip_lead(seq!['/'], '/') == strip_lead(seq!['/'].skip(1), '/'));
    let p = |i: int| spec_answers(COMMANDS@[i], Seq::<char>::empty());
    if n > 0 {
        bare_slash_lists_everything((n - 1) as nat);
        let low = ascii_lowercase(COMMANDS@[n - 1].token().skip(1));
        assert(low.take(0) =~= Seq::<char>::empty());
        assert(token_answers(COMMANDS@[n - 1].token(), Seq::<char>::empty()));
        assert(p(n - 1));
    }
    assert(positions(n, p) =~= Seq::new(n, |i: int| i));
}

/// Typing further letters only ever removes rows: an entry that answers a longer query answers each
/// beginning of it.
pub proof fn longer_queries_narrow(spec: CommandSpec, query: Seq<char>, more: Seq<char>)
    requires
        spec_answers(spec, query + more),
    ensures
        spec_answers(spec, query),
{
    assert forall|t: Seq<char>| token_answers(t, query + more) implies token_answers(t, query) by {
        let low = ascii_lowercase(t.skip(1));
        assert(low.take(query.len() as int) =~= (query + more).take(query.len() as int));
        assert((query + more).take(query.len() as int) =~= query);
    }
    if !token_answers(spec.token(), query + more) {
        let k = choose|k: int|
            0 <= k < spec.synonyms().len() && token_answers(
                #[trigger] spec.synonyms()[k]@,
                query + more,
            );
        assert(token_answers(spec.synonyms()[k]@, query));
    }
}

} // verus!
