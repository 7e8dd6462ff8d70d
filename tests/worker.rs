use magic_nix_cache::{upload_requests, Action, Request, Worker};

fn up(p: &str) -> Request {
    Request::Upload(p.to_string())
}

#[test]
fn same_path_twice_is_uploaded_once() {
    let mut w = Worker::new();
    assert_eq!(w.handle(up("aaa-hello")), Action::Upload("aaa-hello".to_string()));
    assert_eq!(w.handle(up("aaa-hello")), Action::Skip);
    assert_eq!(w.handle(up("bbb-world")), Action::Upload("bbb-world".to_string()));
    assert_eq!(w.handle(up("aaa-hello")), Action::Skip);
}

#[test]
fn shutdown_after_queued_uploads() {
    let mut w = Worker::new();
    let queue = vec![up("a"), up("b"), Request::Shutdown, up("c")];
    let mut actions = Vec::new();
    for r in queue {
        let a = w.handle(r);
        let stop = a == Action::Stop;
        actions.push(a);
        if stop {
            break;
        }
    }
    assert_eq!(
        actions,
        vec![Action::Upload("a".to_string()), Action::Upload("b".to_string()), Action::Stop]
    );
    assert!(!w.is_running());
    assert_eq!(w.handle(up("c")), Action::Stop);
}

#[test]
fn overlapping_closures_upload_each_path_once() {
    let mut w = Worker::new();
    let first = upload_requests(vec!["a".to_string(), "b".to_string()]);
    let second = upload_requests(vec!["b".to_string(), "c".to_string()]);
    assert_eq!(first, vec![up("a"), up("b")]);
    let mut uploads = Vec::new();
    for r in first.into_iter().chain(second) {
        if let Action::Upload(p) = w.handle(r) {
            uploads.push(p);
        }
    }
    assert_eq!(uploads, vec!["a".to_string(), "b".to_string(), "c".to_string()]);
}
