//! Slash commands: from a submitted line to what it asks for.
use vstd::prelude::*;
use vstd::string::*;
use crate::domain::command_menu::{CommandSpec, COMMANDS};
use crate::kernel::ApprovalMode;
use crate::text::{
    char_count, head_of, is_white, repeat_char, repeated, rest_of, same, solid_text, split_head, trim,
    trimmed,
};

verus! {

/// A slash command parsed from a submitted input line. A line that does not start with `/` is a model prompt;
/// a `/`-prefixed line that matches nothing is `Unknown`, so the UI can warn instead of silently sending it to
/// the model.
#[derive(Debug, Clone, PartialEq, Eq)]
pub enum Command {
    /// End the session.
    Quit,
    /// Discard the conversation and start fresh.
    NewSession,
    /// Show the available commands.
    Help,
    /// Switch the approval mode.
    SetMode(ApprovalMode),
    /// `/cd`: show the active workspace (`None`) or move it to a path (`Some`).
    ChangeWorkspace(Option<String>),
    /// `/models`: open the picker to switch the active model (from the active provider's catalog).
    Models,
    /// `/effort`: open the picker to switch the reasoning effort.
    Effort,
    /// `/provider`: open the picker to switch the active provider.
    Provider,
    /// `/resume`: reopen the most recent session for this workspace.
    Resume,
    /// `/sessions`: open the picker to choose a past session to reopen.
    Sessions,
    /// `/sync`: push the portable profile (config + memory) to the configured private repo.
    Sync,
    /// `/instructions`: show the active instructions files and their merged content.
    Instructions,
    /// `/rules`: show the loaded extension rules.
    Rules,
    /// `/commands`: show the loaded extension custom commands.
    Commands,
    /// `/agents`: show the loaded agent profiles.
    Agents,
    /// `/skills`: show the loaded skills.
    Skills,
    /// `/hooks`: show the loaded hooks.
    Hooks,
    /// `/approve-hook <id>`: approve a pending project-layer hook.
    ApproveHook(String),
    /// `/mcp`: show the loaded MCP servers.
    Mcp,
    /// `/approve-mcp <id>`: approve a pending project-layer MCP server.
    ApproveMcp(String),
    /// A `/`-prefixed token that matches no built-in. It carries the raw head token, which may still name an
    /// extension-provided custom command.
    Unknown(String),
}

/// The contents of a command.
pub enum CommandView {
    Quit,
    NewSession,
    Help,
    SetMode(ApprovalMode),
    ChangeWorkspace(Option<Seq<char>>),
    Models,
    Effort,
    Provider,
    Resume,
    Sessions,
    Sync,
    Instructions,
    Rules,
    Commands,
    Agents,
    Skills,
    Hooks,
    ApproveHook(Seq<char>),
    Mcp,
    ApproveMcp(Seq<char>),
    Unknown(Seq<char>),
}

impl View for Command {
    type V = CommandView;

    open spec fn view(&self) -> CommandView {
        match *self {
            Command::Quit => CommandView::Quit,
            Command::NewSession => CommandView::NewSession,
            Command::Help => CommandView::Help,
            Command::SetMode(m) => CommandView::SetMode(m),
            Command::ChangeWorkspace(p) => CommandView::ChangeWorkspace(
                match p {
                    Some(t) => Some(t@),
                    None => None,
                },
            ),
            Command::Models => CommandView::Models,
            Command::Effort => CommandView::Effort,
            Command::Provider => CommandView::Provider,
            Command::Resume => CommandView::Resume,
            Command::Sessions => CommandView::Sessions,
            Command::Sync => CommandView::Sync,
            Command::Instructions => CommandView::Instructions,
            Command::Rules => CommandView::Rules,
            Command::Commands => CommandView::Commands,
            Command::Agents => CommandView::Agents,
            Command::Skills => CommandView::Skills,
            Command::Hooks => CommandView::Hooks,
            Command::Mcp => CommandView::Mcp,
            Command::ApproveHook(id) => CommandView::ApproveHook(id@),
            Command::ApproveMcp(id) => CommandView::ApproveMcp(id@),
            Command::Unknown(t) => CommandView::Unknown(t@),
        }
    }
}

/// The catalog entry that a token names, by its canonical form or by an alias.
pub open spec fn named(head: Seq<char>) -> Option<CommandSpec> {
    if head == "/new"@ || head == "/novo"@ {
        Some(CommandSpec::New)
    } else if head == "/resume"@ || head == "/retomar"@ {
        Some(CommandSpec::Resume)
    } else if head == "/sessions"@ || head == "/sessoes"@ {
        Some(CommandSpec::Sessions)
    } else if head == "/sync"@ {
        Some(CommandSpec::Sync)
    } else if head == "/instructions"@ || head == "/instrucoes"@ {
        Some(CommandSpec::Instructions)
    } else if head == "/rules"@ || head == "/regras"@ {
        Some(CommandSpec::Rules)
    } else if head == "/commands"@ || head == "/comandos"@ {
        Some(CommandSpec::Commands)
    } else if head == "/agents"@ || head == "/agentes"@ {
        Some(CommandSpec::Agents)
    } else if head == "/skills"@ {
        Some(CommandSpec::Skills)
    } else if head == "/hooks"@ {
        Some(CommandSpec::Hooks)
    } else if head == "/approve-hook"@ {
        Some(CommandSpec::ApproveHook)
    } else if head == "/mcp"@ {
        Some(CommandSpec::Mcp)
    } else if head == "/approve-mcp"@ {
        Some(CommandSpec::ApproveMcp)
    } else if head == "/plan"@ {
        Some(CommandSpec::Plan)
    } else if head == "/auto"@ {
        Some(CommandSpec::Auto)
    } else if head == "/default"@ || head == "/normal"@ {
        Some(CommandSpec::Default)
    } else if head == "/cd"@ {
        Some(CommandSpec::Cd)
    } else if head == "/provider"@ || head == "/providers"@ {
        Some(CommandSpec::Provider)
    } else if head == "/models"@ || head == "/modelos"@ {
        Some(CommandSpec::Models)
    } else if head == "/effort"@ || head == "/esforco"@ {
        Some(CommandSpec::Effort)
    } else if head == "/help"@ || head == "/ajuda"@ {
        Some(CommandSpec::Help)
    } else if head == "/exit"@ || head == "/sair"@ || head == "/quit"@ {
        Some(CommandSpec::Exit)
    } else {
        None
    }
}

/// What a catalog entry asks for with an argument. Only `/cd` and the approvals use one.
pub open spec fn asked(spec: CommandSpec, arg: Seq<char>) -> CommandView {
    match spec {
        CommandSpec::New => CommandView::NewSession,
        CommandSpec::Resume => CommandView::Resume,
        CommandSpec::Sessions => CommandView::Sessions,
        CommandSpec::Sync => CommandView::Sync,
        CommandSpec::Instructions => CommandView::Instructions,
        CommandSpec::Rules => CommandView::Rules,
        CommandSpec::Commands => CommandView::Commands,
        CommandSpec::Agents => CommandView::Agents,
        CommandSpec::Skills => CommandView::Skills,
        CommandSpec::Hooks => CommandView::Hooks,
        CommandSpec::ApproveHook => CommandView::ApproveHook(arg),
        CommandSpec::Mcp => CommandView::Mcp,
        CommandSpec::ApproveMcp => CommandView::ApproveMcp(arg),
        CommandSpec::Plan => CommandView::SetMode(ApprovalMode::Plan),
        CommandSpec::Auto => CommandView::SetMode(ApprovalMode::Auto),
        CommandSpec::Default => CommandView::SetMode(ApprovalMode::Default),
        CommandSpec::Cd => CommandView::ChangeWorkspace(if arg.len() == 0 { None } else { Some(arg) }),
        CommandSpec::Provider => CommandView::Provider,
        CommandSpec::Models => CommandView::Models,
        CommandSpec::Effort => CommandView::Effort,
        CommandSpec::Help => CommandView::Help,
        CommandSpec::Exit => CommandView::Quit,
    }
}

/// The command of a line: nothing for a line that does not start with a slash.
pub open spec fn parsed(line: Seq<char>) -> Option<CommandView> {
    let t = trim(line);
    if t.len() == 0 || t[0] != '/' {
        None
    } else {
        Some(
            match named(head_of(t)) {
                Some(spec) => asked(spec, rest_of(t)),
                None => CommandView::Unknown(head_of(t)),
            },
        )
    }
}

fn lookup(head: &str) -> (r: Option<CommandSpec>)
    ensures
        r == named(head@),
{
    if same(head, "/new") || same(head, "/novo") {
        Some(CommandSpec::New)
    } else if same(head, "/resume") || same(head, "/retomar") {
        Some(CommandSpec::Resume)
    } else if same(head, "/sessions") || same(head, "/sessoes") {
        Some(CommandSpec::Sessions)
    } else if same(head, "/sync") {
        Some(CommandSpec::Sync)
    } else if same(head, "/instructions") || same(head, "/instrucoes") {
        Some(CommandSpec::Instructions)
    } else if same(head, "/rules") || same(head, "/regras") {
        Some(CommandSpec::Rules)
    } else if same(head, "/commands") || same(head, "/comandos") {
        Some(CommandSpec::Commands)
    } else if same(head, "/agents") || same(head, "/agentes") {
        Some(CommandSpec::Agents)
    } else if same(head, "/skills") {
        Some(CommandSpec::Skills)
    } else if same(head, "/hooks") {
        Some(CommandSpec::Hooks)
    } else if same(head, "/approve-hook") {
        Some(CommandSpec::ApproveHook)
    } else if same(head, "/mcp") {
        Some(CommandSpec::Mcp)
    } else if same(head, "/approve-mcp") {
        Some(CommandSpec::ApproveMcp)
    } else if same(head, "/plan") {
        Some(CommandSpec::Plan)
    } else if same(head, "/auto") {
        Some(CommandSpec::Auto)
    } else if same(head, "/default") || same(head, "/normal") {
        Some(CommandSpec::Default)
    } else if same(head, "/cd") {
        Some(CommandSpec::Cd)
    } else if same(head, "/provider") || same(head, "/providers") {
        Some(CommandSpec::Provider)
    } else if same(head, "/models") || same(head, "/modelos") {
        Some(CommandSpec::Models)
    } else if same(head, "/effort") || same(head, "/esforco") {
        Some(CommandSpec::Effort)
    } else if same(head, "/help") || same(head, "/ajuda") {
        Some(CommandSpec::Help)
    } else if same(head, "/exit") || same(head, "/sair") || same(head, "/quit") {
        Some(CommandSpec::Exit)
    } else {
        None
    }
}

/// Parse a submitted line. `None` means it is a model prompt (or blank); the caller decides. A line that
/// starts with `/` is always a command: a matched one, or `Unknown` when nothing matches. The first white
/// space splits the command from its argument.
pub fn parse(line: &str) -> (r: Option<Command>)
    ensures
        match r {
            Some(c) => parsed(line@) == Some(c@),
            None => parsed(line@) is None,
        },
{
    let t: String = trimmed(line);
    if t.as_str().is_empty() || t.as_str().get_char(0) != '/' {
        return None;
    }
    let (head, arg): (String, String) = split_head(t.as_str());
    let spec: CommandSpec = match lookup(head.as_str()) {
        Some(spec) => spec,
        None => {
            return Some(Command::Unknown(head));
        },
    };
    let command: Command = match spec {
        CommandSpec::New => Command::NewSession,
        CommandSpec::Resume => Command::Resume,
        CommandSpec::Sessions => Command::Sessions,
        CommandSpec::Sync => Command::Sync,
        CommandSpec::Instructions => Command::Instructions,
        CommandSpec::Rules => Command::Rules,
        CommandSpec::Commands => Command::Commands,
        CommandSpec::Agents => Command::Agents,
        CommandSpec::Skills => Command::Skills,
        CommandSpec::Hooks => Command::Hooks,
        CommandSpec::ApproveHook => Command::ApproveHook(arg),
        CommandSpec::Mcp => Command::Mcp,
        CommandSpec::ApproveMcp => Command::ApproveMcp(arg),
        CommandSpec::Plan => Command::SetMode(ApprovalMode::Plan),
        CommandSpec::Auto => Command::SetMode(ApprovalMode::Auto),
        CommandSpec::Default => Command::SetMode(ApprovalMode::Default),
        CommandSpec::Cd => Command::ChangeWorkspace(
            if arg.as_str().is_empty() {
                None
            } else {
                Some(arg)
            },
        ),
        CommandSpec::Provider => Command::Provider,
        CommandSpec::Models => Command::Models,
        CommandSpec::Effort => Command::Effort,
        CommandSpec::Help => Command::Help,
        CommandSpec::Exit => Command::Quit,
    };
    Some(command)
}

/// The length and the first letters of a token: no two names of the catalog share them.
spec fn signature(s: Seq<char>) -> (nat, char, char, char) {
    (s.len(), s[1], s[2], s[3])
}

/// Every name of the catalog, canonical or alias, is resolved to its own entry.
pub proof fn catalog_names_resolve(spec: CommandSpec)
    ensures
        named(spec.token()) == Some(spec),
        forall|k: int|
            0 <= k < spec.synonyms().len() ==> named(#[trigger] spec.synonyms()[k]@) == Some(spec),
{
    reveal_strlit("/new");
    assert(signature("/new"@) == (4nat, 'n', 'e', 'w'));
    reveal_strlit("/novo");
    assert(signature("/novo"@) == (5nat, 'n', 'o', 'v'));
    reveal_strlit("/resume");
    assert(signature("/resume"@) == (7nat, 'r', 'e', 's'));
    reveal_strlit("/retomar");
    assert(signature("/retomar"@) == (8nat, 'r', 'e', 't'));
    reveal_strlit("/sessions");
    assert(signature("/sessions"@) == (9nat, 's', 'e', 's'));
    reveal_strlit("/sessoes");
    assert(signature("/sessoes"@) == (8nat, 's', 'e', 's'));
    reveal_strlit("/sync");
    assert(signature("/sync"@) == (5nat, 's', 'y', 'n'));
    reveal_strlit("/instructions");
    assert(signature("/instructions"@) == (13nat, 'i', 'n', 's'));
    reveal_strlit("/instrucoes");
    assert(signature("/instrucoes"@) == (11nat, 'i', 'n', 's'));
    reveal_strlit("/rules");
    assert(signature("/rules"@) == (6nat, 'r', 'u', 'l'));
    reveal_strlit("/regras");
    assert(signature("/regras"@) == (7nat, 'r', 'e', 'g'));
    reveal_strlit("/commands");
    assert(signature("/commands"@) == (9nat, 'c', 'o', 'm'));
    reveal_strlit("/comandos");
    assert(signature("/comandos"@) == (9nat, 'c', 'o', 'm'));
    reveal_strlit("/agents");
    assert(signature("/agents"@) == (7nat, 'a', 'g', 'e'));
    reveal_strlit("/agentes");
    assert(signature("/agentes"@) == (8nat, 'a', 'g', 'e'));
    reveal_strlit("/skills");
    assert(signature("/skills"@) == (7nat, 's', 'k', 'i'));
    reveal_strlit("/hooks");
    assert(signature("/hooks"@) == (6nat, 'h', 'o', 'o'));
    reveal_strlit("/approve-hook");
    assert(signature("/approve-hook"@) == (13nat, 'a', 'p', 'p'));
    reveal_strlit("/mcp");
    assert(signature("/mcp"@) == (4nat, 'm', 'c', 'p'));
    reveal_strlit("/approve-mcp");
    assert(signature("/approve-mcp"@) == (12nat, 'a', 'p', 'p'));
    reveal_strlit("/plan");
    assert(signature("/plan"@) == (5nat, 'p', 'l', 'a'));
    reveal_strlit("/auto");
    assert(signature("/auto"@) == (5nat, 'a', 'u', 't'));
    reveal_strlit("/default");
    assert(signature("/default"@) == (8nat, 'd', 'e', 'f'));
    reveal_strlit("/normal");
    assert(signature("/normal"@) == (7nat, 'n', 'o', 'r'));
    reveal_strlit("/cd");
    assert(signature("/cd"@).0 == 3);
    reveal_strlit("/provider");
    assert(signature("/provider"@) == (9nat, 'p', 'r', 'o'));
    reveal_strlit("/providers");
    assert(signature("/providers"@) == (10nat, 'p', 'r', 'o'));
    reveal_strlit("/models");
    assert(signature("/models"@) == (7nat, 'm', 'o', 'd'));
    reveal_strlit("/modelos");
    assert(signature("/modelos"@) == (8nat, 'm', 'o', 'd'));
    reveal_strlit("/effort");
    assert(signature("/effort"@) == (7nat, 'e', 'f', 'f'));
    reveal_strlit("/esforco");
    assert(signature("/esforco"@) == (8nat, 'e', 's', 'f'));
    reveal_strlit("/help");
    assert(signature("/help"@) == (5nat, 'h', 'e', 'l'));
    reveal_strlit("/ajuda");
    assert(signature("/ajuda"@) == (6nat, 'a', 'j', 'u'));
    reveal_strlit("/exit");
    assert(signature("/exit"@) == (5nat, 'e', 'x', 'i'));
    reveal_strlit("/sair");
    assert(signature("/sair"@) == (5nat, 's', 'a', 'i'));
    reveal_strlit("/quit");
    assert(signature("/quit"@) == (5nat, 'q', 'u', 'i'));
}

/// Every entry of the catalog parses to what it asks for, by its name and by each alias: the preview never
/// lists a command that submitting would report as unknown.
pub proof fn catalog_matches_parse(spec: CommandSpec)
    ensures
        parsed(spec.token()) == Some(asked(spec, Seq::empty())),
        forall|k: int|
            0 <= k < spec.synonyms().len() ==> parsed(#[trigger] spec.synonyms()[k]@) == Some(
                asked(spec, Seq::empty()),
            ),
        !(asked(spec, Seq::empty()) is Unknown),
{
    catalog_names_resolve(spec);
    assert(solid(spec.token()) && forall|k: int|
        0 <= k < spec.synonyms().len() ==> solid(#[trigger] spec.synonyms()[k]@)) by {
        reveal_strlit("/new");
        reveal_strlit("/novo");
        reveal_strlit("/resume");
        reveal_strlit("/retomar");
        reveal_strlit("/sessions");
        reveal_strlit("/sessoes");
        reveal_strlit("/sync");
        reveal_strlit("/instructions");
        reveal_strlit("/instrucoes");
        reveal_strlit("/rules");
        reveal_strlit("/regras");
        reveal_strlit("/commands");
        reveal_strlit("/comandos");
        reveal_strlit("/agents");
        reveal_strlit("/agentes");
        reveal_strlit("/skills");
        reveal_strlit("/hooks");
        reveal_strlit("/approve-hook");
        reveal_strlit("/mcp");
        reveal_strlit("/approve-mcp");
        reveal_strlit("/plan");
        reveal_strlit("/auto");
        reveal_strlit("/default");
        reveal_strlit("/normal");
        reveal_strlit("/cd");
        reveal_strlit("/provider");
        reveal_strlit("/providers");
        reveal_strlit("/models");
        reveal_strlit("/modelos");
        reveal_strlit("/effort");
        reveal_strlit("/esforco");
        reveal_strlit("/help");
        reveal_strlit("/ajuda");
        reveal_strlit("/exit");
        reveal_strlit("/sair");
        reveal_strlit("/quit");
    }
    solid_text(spec.token());
    assert(rest_of(spec.token()) =~= Seq::<char>::empty());
    assert forall|k: int| 0 <= k < spec.synonyms().len() implies parsed(
        #[trigger] spec.synonyms()[k]@,
    ) == Some(asked(spec, Seq::empty())) by {
        let alias = spec.synonyms()[k]@;
        solid_text(alias);
        assert(rest_of(alias) =~= Seq::<char>::empty());
    }
}

/// A slash and a name without white space.
spec fn solid(s: Seq<char>) -> bool {
    &&& s.len() > 0
    &&& s[0] == '/'
    &&& forall|i: int| 0 <= i < s.len() ==> !is_white(#[trigger] s[i])
}

/// The length of the longest name among the first `n` entries of the catalog.
pub open spec fn widest(n: int) -> nat
    decreases n,
{
    if n <= 0 {
        0
    } else {
        let w = widest(n - 1);
        let len = COMMANDS@[n - 1].token().len();
        if len > w {
            len
        } else {
            w
        }
    }
}

/// The help rows of the first `n` entries of the catalog: names padded to a common width, then the blurb.
pub open spec fn help_rows(n: int) -> Seq<char>
    decreases n,
{
    if n <= 0 {
        Seq::empty()
    } else {
        let spec = COMMANDS@[n - 1];
        help_rows(n - 1) + "\n  "@ + spec.token() + repeated(
            ' ',
            (widest(COMMANDS@.len() as int) - spec.token().len()) as nat,
        ) + "  "@ + spec.summary()
    }
}

/// The whole help screen.
pub open spec fn help_screen() -> Seq<char> {
    "Comandos:"@ + help_rows(COMMANDS@.len() as int)
        + "\nShift+Tab alterna entre os modos (default → auto → plan)."@
        + "\nEdição: setas/Home/End, Ctrl+setas (palavra), Shift+seleção, Ctrl+A/C/X/V, Ctrl+Z/Y."@
}

proof fn widest_bounds(n: int, i: int)
    requires
        0 <= i < n,
    ensures
        COMMANDS@[i].token().len() <= widest(n),
    decreases n,
{
    if i < n - 1 {
        widest_bounds(n - 1, i);
    }
}

/// A help row of a command: its name and what it does, with some blanks between them.
pub open spec fn help_row(spec: CommandSpec, blanks: nat) -> Seq<char> {
    "\n  "@ + spec.token() + repeated(' ', blanks) + "  "@ + spec.summary()
}

/// The help lists every command of the catalog on a row of its own, with its name and what it does.
pub proof fn help_lists_every_command(i: int)
    requires
        0 <= i < COMMANDS@.len(),
    ensures
        exists|above: Seq<char>, below: Seq<char>, blanks: nat|
            help_screen() == #[trigger] (above + help_row(COMMANDS@[i], blanks) + below),
{
    let n = COMMANDS@.len() as int;
    listed_in_rows(i, n);
    let (above, below, blanks) = choose|above: Seq<char>, below: Seq<char>, blanks: nat|
        help_rows(n) == #[trigger] (above + help_row(COMMANDS@[i], blanks) + below);
    let row = help_row(COMMANDS@[i], blanks);
    let last = "\nShift+Tab alterna entre os modos (default → auto → plan)."@
        + "\nEdição: setas/Home/End, Ctrl+setas (palavra), Shift+seleção, Ctrl+A/C/X/V, Ctrl+Z/Y."@;
    assert(help_screen() =~= ("Comandos:"@ + above) + row + (below + last));
}

proof fn listed_in_rows(i: int, n: int)
    requires
        0 <= i < n <= COMMANDS@.len(),
    ensures
        exists|above: Seq<char>, below: Seq<char>, blanks: nat|
            help_rows(n) == #[trigger] (above + help_row(COMMANDS@[i], blanks) + below),
    decreases n,
{
    let spec = COMMANDS@[n - 1];
    let pad = (widest(COMMANDS@.len() as int) - spec.token().len()) as nat;
    if i == n - 1 {
        assert(help_rows(n) =~= help_rows(n - 1) + help_row(spec, pad) + Seq::<char>::empty());
    } else {
        listed_in_rows(i, n - 1);
        let (above, below, blanks) = choose|above: Seq<char>, below: Seq<char>, blanks: nat|
            help_rows(n - 1) == #[trigger] (above + help_row(COMMANDS@[i], blanks) + below);
        assert(help_rows(n) =~= above + help_row(COMMANDS@[i], blanks) + (below + help_row(spec, pad)));
    }
}

/// The one-screen help shown by `/help`. The per-command rows are derived from the single `COMMANDS` catalog
/// so the help and the live preview menu can never list different commands or blurbs; only the header, the
/// mode shortcut, and the editing hint are help-specific framing.
pub fn help_text() -> (r: String)
    ensures
        r@ == help_screen(),
{
    let n: usize = COMMANDS.len();
    let mut width: usize = 0;
    let mut i: usize = 0;
    while i < n
        invariant
            i <= n,
            n == COMMANDS@.len(),
            width == widest(i as int),
        decreases n - i,
    {
        let len: usize = char_count(COMMANDS[i].name());
        if len > width {
            width = len;
        }
        i = i + 1;
    }
    let mut out: String = "Comandos:".to_owned();
    let mut k: usize = 0;
    assert("Comandos:"@ + help_rows(0) =~= "Comandos:"@);
    while k < n
        invariant
            k <= n,
            n == COMMANDS@.len(),
            width == widest(n as int),
            out@ == "Comandos:"@ + help_rows(k as int),
        decreases n - k,
    {
        let spec: CommandSpec = COMMANDS[k];
        proof {
            widest_bounds(n as int, k as int);
        }
        let pad: String = repeat_char(' ', width - char_count(spec.name()));
        out.append("\n  ");
        out.append(spec.name());
        out.append(pad.as_str());
        out.append("  ");
        out.append(spec.blurb());
        k = k + 1;
        assert(out@ =~= "Comandos:"@ + help_rows(k as int));
    }
    out.append("\nShift+Tab alterna entre os modos (default → auto → plan).");
    out.append("\nEdição: setas/Home/End, Ctrl+setas (palavra), Shift+seleção, Ctrl+A/C/X/V, Ctrl+Z/Y.");
    out
}

} // verus!
