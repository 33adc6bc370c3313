use mpd_outputs::connection::MpdConnection;
use mpd_outputs::dialogue::{Command, RawOutput, Reply, Step};
use mpd_outputs::error::{ErrorDetail, MpdError, MpdResult};
use mpd_outputs::outputs::{MpdOutput, MpdOutputs};

/// A daemon on the other end of a connection: the outputs it has yet to hand over, the error
/// that its connection records when the list breaks off, and the questions it was asked.
struct Daemon {
    outputs: Vec<RawOutput>,
    failure: Option<ErrorDetail>,
    accepts_list: bool,
    asked: Vec<Command>,
}

impl Daemon {
    fn new(outputs: Vec<RawOutput>, failure: Option<ErrorDetail>) -> Daemon {
        Daemon { outputs, failure, accepts_list: true, asked: Vec::new() }
    }

    fn answer(&mut self, command: Command) -> Reply {
        self.asked.push(command);
        match command {
            Command::SendOutputs => Reply::Status(self.accepts_list),
            Command::RecvOutput => {
                if self.outputs.is_empty() {
                    Reply::Output(None)
                } else {
                    Reply::Output(Some(self.outputs.remove(0)))
                }
            }
            Command::LastError => {
                if self.outputs.is_empty() {
                    Reply::Error(self.failure.clone())
                } else {
                    Reply::Error(None)
                }
            }
            _ => Reply::Status(false),
        }
    }
}

fn start(daemon: &mut Daemon, conn: &mut MpdConnection) -> Option<MpdOutputs> {
    let mut replies = Vec::new();
    loop {
        match MpdOutputs::from_conn(conn, &replies) {
            Step::Ask(command) => replies.push(daemon.answer(command)),
            Step::Done(started) => return started,
        }
    }
}

fn pull(
    daemon: &mut Daemon,
    conn: &mut MpdConnection,
    outputs: &mut MpdOutputs,
) -> Option<MpdResult<MpdOutput>> {
    let mut replies = Vec::new();
    loop {
        match outputs.next(conn, &replies) {
            Step::Ask(command) => replies.push(daemon.answer(command)),
            Step::Done(item) => return item,
        }
    }
}

fn raw(id: u32, name: &str, enabled: bool) -> RawOutput {
    RawOutput { id, name: name.to_string(), enabled }
}

fn detail(code: u32, message: &str) -> ErrorDetail {
    ErrorDetail { code, message: message.to_string() }
}

fn three() -> Vec<RawOutput> {
    vec![raw(0, "Speakers", true), raw(1, "Headphones", false), raw(7, "HTTP stream", true)]
}

fn assert_output(item: Option<MpdResult<MpdOutput>>, id: usize, name: &str, enabled: bool) {
    match item {
        Some(Ok(output)) => {
            assert_eq!(output.id(), id);
            assert_eq!(output.name(), name);
            assert_eq!(output.enabled(), enabled);
        }
        other => panic!("an output was expected, not {:?}", other),
    }
}

#[test]
fn start_asks_for_the_list_first() {
    let mut conn = MpdConnection::new();
    assert_eq!(MpdOutputs::from_conn(&mut conn, &[]), Step::Ask(Command::SendOutputs));
    assert!(!conn.is_in_flight());
}

#[test]
fn start_succeeds_when_the_request_is_sent() {
    let mut conn = MpdConnection::new();
    let step = MpdOutputs::from_conn(&mut conn, &[Reply::Status(true)]);
    assert!(matches!(step, Step::Done(Some(_))));
    assert!(conn.is_in_flight());
}

#[test]
fn start_gives_nothing_when_the_request_is_not_sent() {
    let mut conn = MpdConnection::new();
    let step = MpdOutputs::from_conn(&mut conn, &[Reply::Status(false)]);
    assert_eq!(step, Step::Done(None));
    assert!(!conn.is_in_flight());
}

#[test]
fn start_gives_nothing_on_an_answer_of_another_kind() {
    let mut conn = MpdConnection::new();
    let step = MpdOutputs::from_conn(&mut conn, &[Reply::Output(None)]);
    assert_eq!(step, Step::Done(None));
    assert!(!conn.is_in_flight());
    let step = MpdOutputs::from_conn(&mut conn, &[Reply::Error(None)]);
    assert_eq!(step, Step::Done(None));
    assert!(!conn.is_in_flight());
}

#[test]
fn second_enumeration_is_refused_while_the_first_is_pending() {
    let mut daemon = Daemon::new(three(), None);
    let mut conn = MpdConnection::new();
    let first = start(&mut daemon, &mut conn);
    assert!(first.is_some());
    let asked = daemon.asked.len();
    let second = start(&mut daemon, &mut conn);
    assert_eq!(second, None);
    assert_eq!(daemon.asked.len(), asked);
    assert_eq!(MpdOutputs::from_conn(&mut conn, &[Reply::Status(true)]), Step::Done(None));
    assert!(conn.is_in_flight());
}

#[test]
fn clean_list_yields_each_output_then_the_end() {
    let mut daemon = Daemon::new(three(), None);
    let mut conn = MpdConnection::new();
    let mut outputs = start(&mut daemon, &mut conn).unwrap();
    assert_output(pull(&mut daemon, &mut conn, &mut outputs), 0, "Speakers", true);
    assert_output(pull(&mut daemon, &mut conn, &mut outputs), 1, "Headphones", false);
    assert_output(pull(&mut daemon, &mut conn, &mut outputs), 7, "HTTP stream", true);
    assert!(conn.is_in_flight());
    assert_eq!(pull(&mut daemon, &mut conn, &mut outputs), None);
    assert!(!conn.is_in_flight());
    assert_eq!(pull(&mut daemon, &mut conn, &mut outputs), None);
    assert_eq!(pull(&mut daemon, &mut conn, &mut outputs), None);
}

#[test]
fn clean_list_asks_for_the_error_once() {
    let mut daemon = Daemon::new(three(), None);
    let mut conn = MpdConnection::new();
    let mut outputs = start(&mut daemon, &mut conn).unwrap();
    for _ in 0..6 {
        let _ = pull(&mut daemon, &mut conn, &mut outputs);
    }
    assert_eq!(
        daemon.asked,
        vec![
            Command::SendOutputs,
            Command::RecvOutput,
            Command::RecvOutput,
            Command::RecvOutput,
            Command::RecvOutput,
            Command::LastError,
        ]
    );
}

#[test]
fn empty_list_yields_the_end_at_once() {
    let mut daemon = Daemon::new(Vec::new(), None);
    let mut conn = MpdConnection::new();
    let mut outputs = start(&mut daemon, &mut conn).unwrap();
    assert_eq!(pull(&mut daemon, &mut conn, &mut outputs), None);
    assert!(!conn.is_in_flight());
    assert_eq!(pull(&mut daemon, &mut conn, &mut outputs), None);
}

#[test]
fn broken_list_yields_the_error_once() {
    let mut daemon = Daemon::new(three(), Some(detail(4, "Connection closed by the server")));
    let mut conn = MpdConnection::new();
    let mut outputs = start(&mut daemon, &mut conn).unwrap();
    assert_output(pull(&mut daemon, &mut conn, &mut outputs), 0, "Speakers", true);
    assert_output(pull(&mut daemon, &mut conn, &mut outputs), 1, "Headphones", false);
    assert_output(pull(&mut daemon, &mut conn, &mut outputs), 7, "HTTP stream", true);
    assert_eq!(
        pull(&mut daemon, &mut conn, &mut outputs),
        Some(Err(MpdError::StreamError(detail(4, "Connection closed by the server"))))
    );
    assert!(!conn.is_in_flight());
    let asked = daemon.asked.len();
    assert_eq!(pull(&mut daemon, &mut conn, &mut outputs), None);
    assert_eq!(pull(&mut daemon, &mut conn, &mut outputs), None);
    assert_eq!(daemon.asked.len(), asked);
}

#[test]
fn list_broken_before_its_first_output_yields_only_the_error() {
    let mut daemon = Daemon::new(Vec::new(), Some(detail(3, "Timeout")));
    let mut conn = MpdConnection::new();
    let mut outputs = start(&mut daemon, &mut conn).unwrap();
    assert_eq!(
        pull(&mut daemon, &mut conn, &mut outputs),
        Some(Err(MpdError::StreamError(detail(3, "Timeout"))))
    );
    assert_eq!(pull(&mut daemon, &mut conn, &mut outputs), None);
}

#[test]
fn next_steps_through_its_dialogue() {
    let mut conn = MpdConnection::new();
    let mut outputs = match MpdOutputs::from_conn(&mut conn, &[Reply::Status(true)]) {
        Step::Done(Some(outputs)) => outputs,
        other => panic!("the enumeration did not start: {:?}", other),
    };
    assert_eq!(outputs.next(&mut conn, &[]), Step::Ask(Command::RecvOutput));
    assert_eq!(outputs.next(&mut conn, &[Reply::Output(None)]), Step::Ask(Command::LastError));
    assert!(conn.is_in_flight());
    let step = outputs.next(&mut conn, &[Reply::Output(None), Reply::Error(None)]);
    assert_eq!(step, Step::Done(None));
    assert!(!conn.is_in_flight());
    assert_eq!(outputs.next(&mut conn, &[]), Step::Done(None));
}

#[test]
fn next_does_not_read_the_error_when_an_output_came() {
    let mut conn = MpdConnection::new();
    let mut outputs = match MpdOutputs::from_conn(&mut conn, &[Reply::Status(true)]) {
        Step::Done(Some(outputs)) => outputs,
        other => panic!("the enumeration did not start: {:?}", other),
    };
    let replies = [
        Reply::Output(Some(raw(2, "Speakers", true))),
        Reply::Error(Some(detail(5, "stale"))),
    ];
    match outputs.next(&mut conn, &replies) {
        Step::Done(item) => assert_output(item, 2, "Speakers", true),
        other => panic!("a result was expected, not {:?}", other),
    }
    assert!(conn.is_in_flight());
    assert_eq!(outputs.next(&mut conn, &[]), Step::Ask(Command::RecvOutput));
}

#[test]
fn next_reports_an_answer_of_another_kind_once() {
    let mut conn = MpdConnection::new();
    let mut outputs = match MpdOutputs::from_conn(&mut conn, &[Reply::Status(true)]) {
        Step::Done(Some(outputs)) => outputs,
        other => panic!("the enumeration did not start: {:?}", other),
    };
    let step = outputs.next(&mut conn, &[Reply::Status(true)]);
    assert_eq!(step, Step::Done(Some(Err(MpdError::UnexpectedReply))));
    assert!(!conn.is_in_flight());
    assert_eq!(outputs.next(&mut conn, &[]), Step::Done(None));

    let mut conn = MpdConnection::new();
    let mut outputs = match MpdOutputs::from_conn(&mut conn, &[Reply::Status(true)]) {
        Step::Done(Some(outputs)) => outputs,
        other => panic!("the enumeration did not start: {:?}", other),
    };
    let step = outputs.next(&mut conn, &[Reply::Output(None), Reply::Status(false)]);
    assert_eq!(step, Step::Done(Some(Err(MpdError::UnexpectedReply))));
    assert_eq!(outputs.next(&mut conn, &[]), Step::Done(None));
}

#[test]
fn enumeration_of_another_connection_yields_the_end() {
    let mut daemon = Daemon::new(three(), None);
    let mut conn = MpdConnection::new();
    let mut outputs = start(&mut daemon, &mut conn).unwrap();
    let mut idle = MpdConnection::new();
    assert_eq!(outputs.next(&mut idle, &[]), Step::Done(None));
    assert!(!idle.is_in_flight());
    assert_eq!(outputs.next(&mut conn, &[]), Step::Done(None));
    assert!(conn.is_in_flight());
}

#[test]
fn connection_is_free_again_after_the_end() {
    let mut daemon = Daemon::new(vec![raw(3, "Null", false)], None);
    let mut conn = MpdConnection::new();
    let mut outputs = start(&mut daemon, &mut conn).unwrap();
    assert_output(pull(&mut daemon, &mut conn, &mut outputs), 3, "Null", false);
    assert_eq!(pull(&mut daemon, &mut conn, &mut outputs), None);
    daemon.outputs = three();
    let mut again = start(&mut daemon, &mut conn).unwrap();
    assert_output(pull(&mut daemon, &mut conn, &mut again), 0, "Speakers", true);
    assert_eq!(pull(&mut daemon, &mut conn, &mut outputs), None);
}
