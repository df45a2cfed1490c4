use hdn::{
    checker, execute_command, handle_request, load, load_to_command, reply_to_name, store,
    string_to_vec, student_name_reply, type_of_request, vec_to_string, ClientRequest,
    CommandLoad, CommandUniversal, Name, RequestResponse, Storage,
};

fn success(key: &str, hash: &str) -> RequestResponse {
    RequestResponse::Success {
        requested_key: String::from(key),
        requested_hash: String::from(hash),
    }
}

#[test]
fn type_of_request_test() {
    assert_eq!(type_of_request("store"), true);
    assert_eq!(type_of_request("load"), false);
}

#[test]
fn total_work() {
    let mut client_data_storage = Storage::new();
    let mut response: RequestResponse;
    response = store(&mut client_data_storage, "0", "hi");
    response = load(&mut client_data_storage, "0");
    let expected = RequestResponse::Success {
        requested_key: String::from("0"),
        requested_hash: String::from("hi"),
    };
    assert_eq!(response, expected);
}

#[test]
fn type_of_request_other_values() {
    assert!(type_of_request(""));
    assert!(type_of_request("loads"));
    assert!(type_of_request("Load"));
    assert!(!type_of_request("load"));
}

#[test]
fn load_missing_key_is_not_found() {
    let mut storage = Storage::new();
    assert_eq!(load(&mut storage, "absent"), RequestResponse::KeyNotFound);
    assert_eq!(storage.len(), 0);
}

#[test]
fn store_answers_success_with_empty_fields() {
    let mut storage = Storage::new();
    assert_eq!(store(&mut storage, "k", "h"), success("", ""));
    assert_eq!(storage.len(), 1);
}

#[test]
fn last_store_wins() {
    let mut storage = Storage::new();
    store(&mut storage, "some_key", "first");
    store(&mut storage, "some_key", "0b672dd94fd3da6a8d404b66ee3f0c83");
    assert_eq!(storage.len(), 1);
    assert_eq!(
        load(&mut storage, "some_key"),
        success("some_key", "0b672dd94fd3da6a8d404b66ee3f0c83")
    );
}

#[test]
fn store_keeps_other_keys() {
    let mut storage = Storage::new();
    store(&mut storage, "a", "1");
    store(&mut storage, "b", "2");
    assert_eq!(storage.len(), 2);
    assert_eq!(load(&mut storage, "a"), success("a", "1"));
    assert_eq!(load(&mut storage, "b"), success("b", "2"));
    assert_eq!(load(&mut storage, "c"), RequestResponse::KeyNotFound);
}

#[test]
fn load_changes_nothing() {
    let mut storage = Storage::new();
    store(&mut storage, "a", "1");
    load(&mut storage, "a");
    load(&mut storage, "z");
    assert_eq!(storage.len(), 1);
    assert_eq!(load(&mut storage, "a"), success("a", "1"));
}

#[test]
fn handle_request_store_then_load() {
    let mut storage = Storage::new();
    let r = handle_request(
        &mut storage,
        ClientRequest::Store {
            key: String::from("some_key"),
            hash: String::from("0b672dd94fd3da6a8d404b66ee3f0c83"),
        },
    );
    assert_eq!(r, success("", ""));
    let r = handle_request(&mut storage, ClientRequest::Load { key: String::from("some_key") });
    assert_eq!(r, success("some_key", "0b672dd94fd3da6a8d404b66ee3f0c83"));
    let r = handle_request(&mut storage, ClientRequest::Load { key: String::from("other") });
    assert_eq!(r, RequestResponse::KeyNotFound);
}

fn command(request_type: &str, key: &str, hash: &str) -> CommandUniversal {
    CommandUniversal {
        request_type: String::from(request_type),
        key: String::from(key),
        hash: String::from(hash),
    }
}

#[test]
fn execute_command_store_load_and_unknown() {
    let mut storage = Storage::new();
    assert_eq!(execute_command(&mut storage, &command("load", "k", "")), Some(RequestResponse::KeyNotFound));
    assert_eq!(execute_command(&mut storage, &command("store", "k", "v")), Some(success("", "")));
    assert_eq!(execute_command(&mut storage, &command("load", "k", "ignored")), Some(success("k", "v")));
    assert_eq!(execute_command(&mut storage, &command("delete", "k", "")), None);
    assert_eq!(execute_command(&mut storage, &command("", "k", "")), None);
    assert_eq!(storage.len(), 1);
}

#[test]
fn command_universal_new_is_empty() {
    let c = CommandUniversal::new();
    assert_eq!(c.request_type, "");
    assert_eq!(c.key, "");
    assert_eq!(c.hash, "");
}

#[test]
fn load_to_command_copies_type_and_key() {
    let load = CommandLoad { request_type: String::from("load"), key: String::from("some_key") };
    let mut task = command("store", "old", "old_hash");
    load_to_command(&load, &mut task);
    assert_eq!(task.request_type, "load");
    assert_eq!(task.key, "some_key");
    assert_eq!(task.hash, "");
}

#[test]
fn checker_cases() {
    let ok: Result<usize, ()> = Ok(3);
    assert!(!checker(ok, b"{a}"));
    let ok: Result<usize, ()> = Ok(2);
    assert!(checker(ok, b"{a"));
    let err: Result<usize, &str> = Err("broken");
    assert!(checker(err, b"{a}"));
    let err: Result<usize, &str> = Err("broken");
    assert!(checker(err, b""));
}

#[test]
fn string_bytes_round_trip() {
    let bytes = string_to_vec("héllo}");
    assert_eq!(bytes, "héllo}".as_bytes().to_vec());
    assert_eq!(vec_to_string(&bytes), "héllo}");
    assert_eq!(vec_to_string(b"{\"name\": \"x\"}"), "{\"name\": \"x\"}");
    assert_eq!(string_to_vec(""), Vec::<u8>::new());
    assert_eq!(vec_to_string(&[0xe2, 0x82, 0xac]), "\u{20ac}");
}

#[test]
fn name_replies() {
    assert_eq!(student_name_reply().student_name, "Yusupov");
    let name = Name { name: String::from("Alice") };
    assert_eq!(reply_to_name(&name).student_name, "Alice");
}
