//! The `/instructions` panel.
use vstd::prelude::*;
use vstd::string::*;
use crate::text::views;

verus! {

/// The list of loaded paths, one per line.
pub open spec fn path_list(paths: Seq<Seq<char>>) -> Seq<char>
    decreases paths.len(),
{
    if paths.len() == 0 {
        Seq::empty()
    } else if paths.len() == 1 {
        "- "@ + paths[0]
    } else {
        path_list(paths.drop_last()) + "\n- "@ + paths.last()
    }
}

/// The global layer, then the project layer, a blank line between them where both are there.
pub open spec fn layers(global: Option<Seq<char>>, project: Option<Seq<char>>) -> Seq<char> {
    match (global, project) {
        (Some(g), Some(p)) => g + "\n\n"@ + p,
        (Some(g), None) => g,
        (None, Some(p)) => p,
        (None, None) => Seq::empty(),
    }
}

/// The `/instructions` panel text: the discovered paths, then both layers' content. Display-only, so it
/// merges the layers freely. `None` when no instructions file was found, which is what suppresses the panel.
/// `paths` holds each path as it is displayed.
pub fn instructions_display(
    paths: &Vec<String>,
    global: Option<&str>,
    project: Option<&str>,
) -> (r: Option<String>)
    ensures
        r is None <==> global is None && project is None,
        r matches Some(t) ==> t@ == "Arquivos carregados:\n"@ + path_list(views(paths@)) + "\n\n"@
            + layers(
            match global {
                Some(g) => Some(g@),
                None => None,
            },
            match project {
                Some(p) => Some(p@),
                None => None,
            },
        ),
{
    if global.is_none() && project.is_none() {
        return None;
    }
    let mut header: String = String::new();
    let mut i: usize = 0;
    assert(views(paths@).take(0) =~= Seq::<Seq<char>>::empty());
    while i < paths.len()
        invariant
            i <= paths@.len(),
            header@ == path_list(views(paths@).take(i as int)),
        decreases paths@.len() - i,
    {
        let ghost next = views(paths@).take(i as int + 1);
        assert(next.drop_last() =~= views(paths@).take(i as int));
        if i > 0 {
            header.append("\n- ");
        } else {
            header.append("- ");
        }
        header.append(paths[i].as_str());
        assert(header@ =~= path_list(next));
        i = i + 1;
    }
    assert(views(paths@).take(paths@.len() as int) =~= views(paths@));
    let mut out: String = "Arquivos carregados:\n".to_owned();
    out.append(header.as_str());
    out.append("\n\n");
    let ghost head = out@;
    match (global, project) {
        (Some(g), Some(p)) => {
            out.append(g);
            out.append("\n\n");
            out.append(p);
            assert(out@ =~= head + (g@ + "\n\n"@ + p@));
        },
        (Some(g), None) => {
            out.append(g);
        },
        (None, Some(p)) => {
            out.append(p);
        },
        (None, None) => {},
    }
    Some(out)
}

/// The list of paths has each on a line of its own behind a dash, in order.
pub proof fn each_path_has_its_line(paths: Seq<Seq<char>>, path: Seq<char>)
    ensures
        path_list(seq![path]) == "- "@ + path,
        paths.len() > 0 ==> path_list(paths.push(path)) == path_list(paths) + "\n- "@ + path,
{
    assert(paths.push(path).drop_last() =~= paths);
}

/// The global instructions come before those of the project, a blank line between them, and either stands alone where the
/// other is missing.
pub proof fn global_instructions_come_first(global: Seq<char>, project: Seq<char>)
    ensures
        layers(Some(global), Some(project)) == global + "\n\n"@ + project,
        layers(Some(global), None) == global,
        layers(None, Some(project)) == project,
{
}

} // verus!
