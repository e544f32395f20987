use kadot::error::ErrorKind;
use kadot::navigator::{child_path, ensure_directory, Provision, ProvisionStep};
use kadot::protocol::{Reply, Request};

fn names(list: &[&str]) -> Vec<String> {
    list.iter().map(|name| name.to_string()).collect()
}

/// Carries a making-sure out on a set of directories; `can_make` says whether
/// a directory can be made. Returns the end and how many were made.
fn make_sure(directories: &mut Vec<Vec<String>>, path: &[&str], can_make: bool) -> (Result<bool, ErrorKind>, usize) {
    let mut made = 0;
    let mut state = ensure_directory(names(path));
    loop {
        let reply = match state.request() {
            Request::ProbeDirectory { path } => Reply::Present(directories.contains(&path)),
            Request::CreateDirectory { path } => {
                if can_make {
                    directories.push(path);
                    made += 1;
                }
                Reply::Completed(can_make)
            }
            other => panic!("unexpected request {:?}", other),
        };
        match state.answer(reply) {
            ProvisionStep::Continue(next) => state = next,
            ProvisionStep::Done(result) => return (result, made),
        }
    }
}

#[test]
fn child_path_appends_the_name() {
    assert_eq!(child_path(&names(&[]), "a"), names(&["a"]));
    assert_eq!(child_path(&names(&["a", "c"]), "d"), names(&["a", "c", "d"]));
    assert_eq!(child_path(&names(&["a"]), ""), names(&["a", ""]));
}

#[test]
fn child_path_leaves_the_parent_alone() {
    let parent = names(&["a"]);
    let child = child_path(&parent, "b");
    assert_eq!(parent, names(&["a"]));
    assert_eq!(child, names(&["a", "b"]));
}

#[test]
fn ensure_directory_starts_with_a_probe() {
    let state = ensure_directory(names(&["a", "b"]));
    assert_eq!(state, Provision::Probe { path: names(&["a", "b"]) });
    assert_eq!(state.request(), Request::ProbeDirectory { path: names(&["a", "b"]) });
}

#[test]
fn ensure_directory_leaves_a_present_directory_alone() {
    let state = ensure_directory(names(&["a"]));
    assert_eq!(state.answer(Reply::Present(true)), ProvisionStep::Done(Ok(false)));
}

#[test]
fn ensure_directory_makes_a_missing_directory() {
    let state = ensure_directory(names(&["a"]));
    let step = state.answer(Reply::Present(false));
    assert_eq!(step, ProvisionStep::Continue(Provision::Create { path: names(&["a"]) }));
    let ProvisionStep::Continue(state) = step else { unreachable!() };
    assert_eq!(state.request(), Request::CreateDirectory { path: names(&["a"]) });
    assert_eq!(state.answer(Reply::Completed(true)), ProvisionStep::Done(Ok(true)));
}

#[test]
fn ensure_directory_reports_a_directory_that_cannot_be_made() {
    let state = Provision::Create { path: names(&["a"]) };
    assert_eq!(state.answer(Reply::Completed(false)), ProvisionStep::Done(Err(ErrorKind::IOFailure)));
}

#[test]
fn ensure_directory_passes_over_other_replies() {
    let probe = Provision::Probe { path: names(&["a"]) };
    assert_eq!(probe.answer(Reply::Completed(true)), ProvisionStep::Continue(Provision::Probe { path: names(&["a"]) }));
    let create = Provision::Create { path: names(&["a"]) };
    assert_eq!(create.answer(Reply::Present(true)), ProvisionStep::Continue(Provision::Create { path: names(&["a"]) }));
    let create = Provision::Create { path: names(&["a"]) };
    assert_eq!(create.answer(Reply::Text("x".to_string())), ProvisionStep::Continue(Provision::Create { path: names(&["a"]) }));
}

#[test]
fn ensure_directory_twice_makes_it_once() {
    let mut directories: Vec<Vec<String>> = Vec::new();
    assert_eq!(make_sure(&mut directories, &["a"], true), (Ok(true), 1));
    assert_eq!(directories, vec![names(&["a"])]);
    assert_eq!(make_sure(&mut directories, &["a"], true), (Ok(false), 0));
    assert_eq!(directories, vec![names(&["a"])]);
    // The second time succeeds even where nothing can be made.
    assert_eq!(make_sure(&mut directories, &["a"], false), (Ok(false), 0));
    assert_eq!(directories, vec![names(&["a"])]);
}

#[test]
fn ensure_directory_fails_where_nothing_can_be_made() {
    let mut directories: Vec<Vec<String>> = Vec::new();
    assert_eq!(make_sure(&mut directories, &["a"], false), (Err(ErrorKind::IOFailure), 0));
    assert!(directories.is_empty());
}
