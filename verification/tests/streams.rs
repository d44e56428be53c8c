use gelato::subscribe_irc::{Progress, Step, StreamEvent, SubscribeIrcState};
use gelato::view::download::{ChunkOutcome, DownloadState, DownloadStep, Progress as DownloadProgress, ResponseOutcome};

#[test]
fn subscription_starts_then_reads() {
    let st = SubscribeIrcState::Ready { some_input: String::new() };
    match st.step() {
        Step::Emit(Progress::Started, next) => {
            assert_eq!(next, SubscribeIrcState::Incoming { message_text: String::new() });
            assert_eq!(next.step(), Step::Read);
        }
        other => panic!("unexpected {:?}", other),
    }
}

#[test]
fn subscription_reports_lines_and_ends() {
    let (p, next) = SubscribeIrcState::receive(StreamEvent::Line(":a PRIVMSG #c :x\r\n".to_string()));
    assert_eq!(p, Progress::Advanced(":a PRIVMSG #c :x\r\n".to_string()));
    assert_eq!(next, SubscribeIrcState::Incoming { message_text: ":a PRIVMSG #c :x\r\n".to_string() });
    let (p, next) = SubscribeIrcState::receive(StreamEvent::Ended);
    assert_eq!(p, Progress::Finished);
    assert_eq!(next.step(), Step::Idle);
    let (p, next) = SubscribeIrcState::receive(StreamEvent::Failed);
    assert_eq!(p, Progress::Errored);
    assert_eq!(next, SubscribeIrcState::Finished);
}

#[test]
fn download_counts_bytes() {
    assert_eq!(
        DownloadState::Ready("http://x".to_string()).step(),
        DownloadStep::Request("http://x".to_string())
    );
    let (p, st) = DownloadState::on_response(ResponseOutcome::Length(100));
    assert_eq!(p, DownloadProgress::Started);
    assert_eq!(st, DownloadState::Downloading { total: 100, downloaded: 0 });
    let (p, st) = DownloadState::on_chunk(100, 0, ChunkOutcome::Chunk(40));
    assert_eq!(p, DownloadProgress::Advanced { downloaded: 40, total: 100 });
    assert_eq!(st.clone().step(), DownloadStep::ReadChunk { total: 100, downloaded: 40 });
    let (p, st) = DownloadState::on_chunk(100, 40, ChunkOutcome::End);
    assert_eq!(p, DownloadProgress::Finished);
    assert_eq!(st.step(), DownloadStep::Idle);
    assert_eq!(DownloadState::on_chunk(100, 40, ChunkOutcome::Failed).0, DownloadProgress::Errored);
}

#[test]
fn download_without_length_fails() {
    assert_eq!(
        DownloadState::on_response(ResponseOutcome::UnknownLength),
        (DownloadProgress::Errored, DownloadState::Finished)
    );
    assert_eq!(
        DownloadState::on_response(ResponseOutcome::Failed),
        (DownloadProgress::Errored, DownloadState::Finished)
    );
}
