use hyouga_chess::uci::{Reply, UciWriter};
use hyouga_chess::{ENGINE_AUTHOR, ENGINE_NAME};

#[test]
fn batches_drain_in_submission_order() {
    let mut w = UciWriter::default();
    w.queue_message_many(vec![Reply::UciOk, Reply::ReadyOk]);
    w.queue_message_many(vec![Reply::ReadyOk, Reply::UciOk]);
    assert_eq!(w.pending(), 4);
    assert_eq!(w.next_message(), Some(Reply::UciOk));
    assert_eq!(w.next_message(), Some(Reply::ReadyOk));
    assert_eq!(w.next_message(), Some(Reply::ReadyOk));
    assert_eq!(w.next_message(), Some(Reply::UciOk));
    assert_eq!(w.next_message(), None);
}

#[test]
fn single_message_follows_earlier_batch() {
    let mut w = UciWriter::new();
    w.queue_message_many(vec![Reply::UciOk]);
    w.queue_message_one(Reply::ReadyOk);
    assert_eq!(w.next_message(), Some(Reply::UciOk));
    assert_eq!(w.next_message(), Some(Reply::ReadyOk));
    assert_eq!(w.pending(), 0);
}

#[test]
fn empty_writer_yields_nothing() {
    let mut w = UciWriter::new();
    assert_eq!(w.next_message(), None);
    w.queue_message_many(Vec::new());
    assert_eq!(w.pending(), 0);
}

#[test]
fn identification_renders_as_two_lines() {
    let id = Reply::Id {
        name: ENGINE_NAME.to_string(),
        author: ENGINE_AUTHOR.to_string(),
    };
    assert_eq!(
        id.render(),
        vec!["id name Hyōga".to_string(), "id author MythicalEngineer".to_string()]
    );
}

#[test]
fn acknowledgements_render_as_keywords() {
    assert_eq!(Reply::UciOk.render(), vec!["uciok".to_string()]);
    assert_eq!(Reply::ReadyOk.render(), vec!["readyok".to_string()]);
}

#[test]
fn text_reply_renders_as_is() {
    let r = Reply::Text("bestmove e2e4 ponder e7e5".to_string());
    assert_eq!(r.render(), vec!["bestmove e2e4 ponder e7e5".to_string()]);
}
