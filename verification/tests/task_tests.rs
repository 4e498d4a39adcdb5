use taskcore::result::succeed;
use taskcore::result::succeed_with_result;
use taskcore::result::EmptyResult;
use taskcore::result::MessagePayload;
use taskcore::result::RawResult;
use taskcore::result::TaskResult;
use taskcore::task::Task;
use taskcore::task::TaskError;

pub struct MyCmd {
    id: u64,
}

impl MyCmd {
    fn new(id: u64) -> Self {
        MyCmd { id }
    }
}

#[test]
fn test_task() {
    let mut t: Task<MyCmd> = Task::new(12345, "hello world");
    let c = MyCmd::new(123456);
    t.add_cmd(c);
    assert_eq!(t.at(0).unwrap().id, 123456);
    assert_eq!(t.at(0).unwrap().id, 123456);
    let movetest = t.at(0).unwrap().id;
    assert_eq!(movetest, 123456);
    assert_eq!(t.at(0).unwrap().id, 123456);

    let ret = succeed(t.id());
    let mut ret_str = String::from("");
    ret_str.push_str(&t.id().to_string());
    ret_str.push_str("|200|");
    assert_eq!(ret.result_to_str(), ret_str);

    let mut err_msg = String::from("我错了");
    let my_ret = MessagePayload::new(err_msg.clone());
    assert_eq!(err_msg, "我错了");
    let ret = TaskResult::new(12345, 200, my_ret);
    assert_eq!(ret.get_result().to_str(), "我错了");
    println!("before modify {:p}", err_msg.as_str());
    err_msg = String::from("我又错了");
    println!("after modify {:p}", err_msg.as_str());
    assert_eq!(err_msg, "我又错了");
    assert_eq!(ret.get_result().to_str(), "我错了");
}

#[test]
fn len_counts_appends() {
    let mut t: Task<u64> = Task::new(1, "alice");
    assert_eq!(t.len(), 0);
    for k in 0..5u64 {
        t.add_cmd(k * 10);
    }
    assert_eq!(t.len(), 5);
    t.add_cmd(99);
    assert_eq!(t.len(), 6);
}

#[test]
fn at_returns_commands_in_insertion_order() {
    let mut t: Task<u64> = Task::new(2, "bob");
    t.add_cmd(10);
    t.add_cmd(20);
    t.add_cmd(30);
    assert_eq!(*t.at(0).unwrap(), 10);
    assert_eq!(*t.at(1).unwrap(), 20);
    assert_eq!(*t.at(2).unwrap(), 30);
}

#[test]
fn at_out_of_range_fails() {
    let mut t: Task<u64> = Task::new(3, "carol");
    assert_eq!(t.at(0), Err(TaskError::IndexOutOfBounds));
    t.add_cmd(7);
    assert_eq!(t.at(1), Err(TaskError::IndexOutOfBounds));
    assert_eq!(t.at(100), Err(TaskError::IndexOutOfBounds));
    assert_eq!(*t.at(0).unwrap(), 7);
}

#[test]
fn clear_empties_and_keeps_identity() {
    let mut t: Task<u64> = Task::new(42, "dave");
    t.add_cmd(1);
    t.add_cmd(2);
    assert_eq!(t.len(), 2);
    t.clear_cmd();
    assert_eq!(t.len(), 0);
    assert_eq!(t.id(), 42);
    assert_eq!(t.user(), "dave");
    assert_eq!(t.at(0), Err(TaskError::IndexOutOfBounds));
}

#[test]
fn empty_user_is_kept() {
    let t: Task<u64> = Task::new(9, "");
    assert_eq!(t.user(), "");
    assert_eq!(t.id(), 9);
}

#[test]
fn succeed_renders_id_and_200() {
    assert_eq!(succeed(12345).result_to_str(), "12345|200|");
    assert_eq!(succeed(0).result_to_str(), "0|200|");
    assert_eq!(succeed(1).result_to_str(), "1|200|");
    assert_eq!(
        succeed(18446744073709551615).result_to_str(),
        "18446744073709551615|200|"
    );
}

#[test]
fn succeed_with_result_renders_payload_text() {
    let p = MessagePayload::new(String::from("X"));
    assert_eq!(succeed_with_result(12345, p).result_to_str(), "12345|200|X");
    let q = MessagePayload::new(String::from(""));
    assert_eq!(succeed_with_result(6, q).result_to_str(), "6|200|");
}

#[test]
fn result_to_str_renders_any_code() {
    assert_eq!(
        TaskResult::new(7, 255, EmptyResult::new()).result_to_str(),
        "7|255|"
    );
    assert_eq!(
        TaskResult::new(7, 0, EmptyResult::new()).result_to_str(),
        "7|0|"
    );
    let p = MessagePayload::new(String::from("oops"));
    assert_eq!(TaskResult::new(8, 14, p).result_to_str(), "8|14|oops");
}

#[test]
fn accessors_return_stored_fields() {
    let p = MessagePayload::new(String::from("msg"));
    let r = TaskResult::new(31, 202, p);
    assert_eq!(*r.get_id(), 31);
    assert_eq!(*r.get_code(), 202);
    assert_eq!(r.get_result().to_str(), "msg");
    assert_eq!(r.get_result().to_json(), "msg");
}

#[test]
fn empty_payload_renders_empty() {
    let e = EmptyResult::new();
    assert_eq!(e.to_str(), "");
    assert_eq!(e.to_json(), "");
}

#[test]
fn stored_payload_is_independent_of_the_source() {
    let mut msg = String::from("first");
    let r = TaskResult::new(5, 200, MessagePayload::new(msg.clone()));
    msg = String::from("second");
    assert_eq!(msg, "second");
    assert_eq!(r.get_result().to_str(), "first");
}

#[test]
fn concrete_scenario() {
    let mut t: Task<MyCmd> = Task::new(12345, "hello world");
    t.add_cmd(MyCmd::new(123456));
    assert_eq!(t.at(0).unwrap().id, 123456);
    assert_eq!(t.len(), 1);
    assert_eq!(t.id(), 12345);
    assert_eq!(t.user(), "hello world");
}
