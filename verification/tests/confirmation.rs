use ddi::device::{DeviceInfo, ResolveError};
use ddi::gate::{after_query, after_reply, resolve, GateError, GateStep, QueryOutcome, Reply};
use ddi::warning::confirmation_prompt;

const ONE_DISK: &[u8] = b"{\"blockdevices\": [{\"name\":\"sdx\", \"model\":null, \"size\":\"20G\",
 \"children\": [{\"name\":\"sdx1\", \"fstype\":\"ext4\", \"mountpoint\":\"/mnt\", \"label\":\"\", \"size\":\"10G\"}]}]}";

fn finished(status: Option<i32>, output: &[u8]) -> QueryOutcome {
    QueryOutcome::Finished { status, output: output.to_vec() }
}

#[test]
fn exit_status_32_proceeds_without_a_prompt() {
    assert_eq!(after_query(&finished(Some(32), b"")), GateStep::Proceed);
    assert_eq!(
        after_query(&finished(Some(32), b"lsblk: /tmp/img.dd: not a block device\n")),
        GateStep::Proceed
    );
    assert_eq!(after_query(&finished(Some(32), ONE_DISK)), GateStep::Proceed);
}

#[test]
fn exit_status_1_aborts_without_a_prompt() {
    assert_eq!(
        resolve(&finished(Some(1), b"")),
        Err(ResolveError::QueryFailed)
    );
    assert_eq!(
        after_query(&finished(Some(1), b"")),
        GateStep::Abort { error: GateError::Resolve(ResolveError::QueryFailed) }
    );
    assert_eq!(
        after_query(&finished(Some(1), ONE_DISK)),
        GateStep::Abort { error: GateError::Resolve(ResolveError::QueryFailed) }
    );
}

#[test]
fn tool_that_cannot_be_run_aborts() {
    assert_eq!(resolve(&QueryOutcome::Unavailable), Err(ResolveError::QueryFailed));
    assert_eq!(
        after_query(&QueryOutcome::Unavailable),
        GateStep::Abort { error: GateError::Resolve(ResolveError::QueryFailed) }
    );
    assert_eq!(
        after_query(&finished(None, ONE_DISK)),
        GateStep::Abort { error: GateError::Resolve(ResolveError::QueryFailed) }
    );
}

#[test]
fn malformed_answer_aborts() {
    assert_eq!(
        after_query(&finished(Some(0), b"{\"blockdevices\": []}")),
        GateStep::Abort { error: GateError::Resolve(ResolveError::MalformedOutput) }
    );
    assert_eq!(
        after_query(&finished(Some(0), b"")),
        GateStep::Abort { error: GateError::Resolve(ResolveError::MalformedOutput) }
    );
}

#[test]
fn resolved_device_is_shown_in_the_prompt() {
    let snapshot = DeviceInfo::new(Some(0), ONE_DISK).unwrap();
    assert_eq!(resolve(&finished(Some(0), ONE_DISK)), Ok(snapshot.clone()));
    let step = after_query(&finished(Some(0), ONE_DISK));
    assert_eq!(step, GateStep::Ask { prompt: confirmation_prompt(snapshot) });
    match step {
        GateStep::Ask { prompt } => {
            assert!(prompt.contains("You are about to write data to sdx,"));
            assert!(prompt.contains("* Name:\x1b[m sdx1\n"));
            assert!(prompt.contains("* File System:\x1b[m ext4\n"));
            assert!(prompt.contains("* Mount Point:\x1b[m /mnt\n"));
            assert!(prompt.contains("* Label:\x1b[m \n"));
            assert!(prompt.contains("* Size:\x1b[m 10G\n"));
            assert!(prompt.contains("THIS ACTION CANNOT BE UNDONE"));
        }
        other => panic!("no prompt: {:?}", other),
    }
}

#[test]
fn reply_decides() {
    assert_eq!(after_reply(&Reply::Line("y\n".to_string())), Ok(true));
    assert_eq!(after_reply(&Reply::Line("Y".to_string())), Ok(true));
    assert_eq!(after_reply(&Reply::Line("N\n".to_string())), Ok(false));
    assert_eq!(after_reply(&Reply::Line("yes\n".to_string())), Ok(false));
    assert_eq!(after_reply(&Reply::Line(String::new())), Ok(false));
}

#[test]
fn unreadable_reply_is_an_error() {
    assert_eq!(after_reply(&Reply::Unreadable), Err(GateError::Io));
}
