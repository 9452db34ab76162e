use ery::dispatch::{assemble, plan, DispatchStep, Dispatcher, ServiceReply};
use ery::entry::{EntryKind, RawItem};
use ery::query::{Query, RequestFlags, SortType};
use ery::ui::{KeyInput, UiAction, UI};

fn raw_item(index: u32, name: &str, parent: &str) -> RawItem {
    RawItem {
        index,
        kind: EntryKind::File,
        filename: name.to_string(),
        path: parent.to_string(),
        filepath: format!("{}/{}", parent, name),
        full_path_name: format!("{}/{}", parent, name),
        extension: String::from("txt"),
        size: 42,
        date_created: 1,
        date_modified: 2,
        date_accessed: 3,
        attributes: 32,
        file_list_filename: String::new(),
        run_count: 0,
        date_run: 0,
        date_recently_changed: 0,
        highlighted_filename: String::new(),
        highlighted_path: String::new(),
        highlighted_full_path_and_filename: String::new(),
    }
}

/// Runs the dispatcher's decision for every pending request, counting the
/// service calls a worker would make; replies are faked per call.
fn drain_counting(d: &mut Dispatcher) -> (usize, Vec<String>) {
    let mut calls = 0usize;
    let mut echoes = Vec::new();
    while let Some(p) = d.next_request() {
        match plan(p.query) {
            DispatchStep::Local(batch) => {
                echoes.push(batch.search);
            }
            DispatchStep::Remote(q) => {
                calls += 1;
                let reply = ServiceReply {
                    total: 0,
                    request_flags: q.request_flags,
                    sort_type: q.sort_type,
                    items: Vec::new(),
                };
                let batch = assemble(q, reply);
                echoes.push(batch.search);
            }
        }
    }
    (calls, echoes)
}

#[test]
fn empty_query_skips_the_service() {
    // An empty search text is answered locally: the batch is empty and the
    // call counter of the spy worker stays at zero.
    let mut d = Dispatcher::new();
    d.submit(Query::with_search(String::new()));
    let (calls, echoes) = drain_counting(&mut d);
    assert_eq!(calls, 0);
    assert_eq!(echoes, vec![String::new()]);
}

#[test]
fn empty_query_batch_is_empty() {
    match plan(Query::with_search(String::new())) {
        DispatchStep::Local(batch) => {
            assert_eq!(batch.number, 0);
            assert_eq!(batch.total, 0);
            assert_eq!(batch.search, "");
            assert!(batch.entrys.is_empty());
        }
        DispatchStep::Remote(_) => panic!("an empty search must not reach the service"),
    }
}

#[test]
fn non_empty_query_is_one_call_with_the_request_options() {
    let mut q = Query::with_search("report .pdf".to_string());
    q.match_case = true;
    q.offset = 7;
    match plan(q) {
        DispatchStep::Local(_) => panic!("a non-empty search must reach the service"),
        DispatchStep::Remote(call) => {
            assert_eq!(call.search, "report .pdf");
            assert!(call.match_case);
            assert!(!call.match_path);
            assert_eq!(call.offset, 7);
            assert_eq!(call.max, 512);
            assert_eq!(call.sort_type, SortType::NameAscending);
            assert_eq!(call.request_flags, RequestFlags::default());
        }
    }
}

#[test]
fn responses_keep_submission_order() {
    // R1, R2, R3 submitted in that order come back in that order, stamped
    // with increasing sequence numbers, even though R2 is the empty query
    // answered without any service round-trip.
    let mut d = Dispatcher::new();
    d.submit(Query::with_search("first".to_string()));
    d.submit(Query::with_search(String::new()));
    d.submit(Query::with_search("third".to_string()));

    let p1 = d.next_request().expect("first pending request");
    let p2 = d.next_request().expect("second pending request");
    let p3 = d.next_request().expect("third pending request");
    assert!(d.next_request().is_none());

    assert_eq!((p1.seq_no, p1.query.search.as_str()), (0, "first"));
    assert_eq!((p2.seq_no, p2.query.search.as_str()), (1, ""));
    assert_eq!((p3.seq_no, p3.query.search.as_str()), (2, "third"));
}

#[test]
fn delayed_arrival_does_not_reorder_processing() {
    let mut d = Dispatcher::new();
    for text in ["a", "b", "", "c"] {
        d.submit(Query::with_search(text.to_string()));
    }
    let (calls, echoes) = drain_counting(&mut d);
    assert_eq!(calls, 3);
    assert_eq!(echoes, vec!["a", "b", "", "c"]);
}

#[test]
fn assemble_echoes_request_and_reply() {
    let q = Query::with_search("notes".to_string());
    let reply = ServiceReply {
        total: 5,
        request_flags: RequestFlags::default(),
        sort_type: SortType::NameAscending,
        items: vec![raw_item(0, "notes.txt", "C:/docs"), raw_item(1, "notes.md", "C:/docs")],
    };
    let batch = assemble(q, reply);
    assert_eq!(batch.search, "notes");
    assert_eq!(batch.offset, 0);
    assert_eq!(batch.number, 2);
    assert_eq!(batch.total, 5);
    assert_eq!(batch.entrys.len(), 2);
    assert_eq!(batch.entrys[0].filename.as_deref(), Some("notes.txt"));
    assert_eq!(batch.entrys[1].filename.as_deref(), Some("notes.md"));
    assert_eq!(batch.entrys[0].path.as_deref(), Some("C:/docs"));
    // The default request asks for name and path only.
    assert_eq!(batch.entrys[0].size, None);
    assert_eq!(batch.entrys[0].extension, None);
}

#[test]
fn redundant_submit_is_elided() {
    // Submitting the same text twice in a row: once the first batch echoes
    // the text, the second Enter only moves the focus; the spy worker sees
    // exactly one service call.
    let mut d = Dispatcher::new();
    let mut s = UI::new();
    let text = "main.rs".to_string();

    // First Enter: no batch yet, so a query is dispatched.
    let r = s.handle_key(KeyInput::Enter { ctrl: false }, 0, &text, None);
    assert!(matches!(r, UiAction::SubmitQuery));
    d.submit(Query::with_search(text.clone()));

    // The worker answers it; the batch echoes the searched text.
    let p = d.next_request().expect("the submitted request");
    let echoed = match plan(p.query) {
        DispatchStep::Remote(q) => {
            let reply = ServiceReply {
                total: 1,
                request_flags: q.request_flags,
                sort_type: q.sort_type,
                items: vec![raw_item(0, "main.rs", "C:/src")],
            };
            assemble(q, reply)
        }
        DispatchStep::Local(_) => panic!("a non-empty search must reach the service"),
    };
    assert_eq!(echoed.search, text);

    // Second Enter without an intervening edit: the echo matches, so the
    // focus moves into the list and nothing is dispatched again.
    let r = s.handle_key(
        KeyInput::Enter { ctrl: false },
        echoed.number,
        &text,
        Some(&echoed.search),
    );
    assert!(matches!(r, UiAction::Nothing));
    assert!(!s.is_focus_search_bar);
    assert_eq!(s.selected, Some(0));
    assert!(d.next_request().is_none(), "no second request was enqueued");
}

#[test]
fn edited_text_is_dispatched_again() {
    let mut s = UI::new();
    let echoed = "main.rs".to_string();
    let edited = "main".to_string();
    let r = s.handle_key(KeyInput::Enter { ctrl: false }, 1, &edited, Some(&echoed));
    assert!(matches!(r, UiAction::SubmitQuery));
    assert_eq!(s.selected, None);
    assert!(s.is_focus_search_bar);
}
