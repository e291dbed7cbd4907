use cef_unity::arguments::{
    argument_value, following_argument, process_type, server_arguments, server_options,
    socket_file_name, switch_is_on,
};

fn arguments(text: &str) -> Vec<String> {
    text.split(' ').map(str::to_string).collect()
}

#[test]
fn reads_equals_form() {
    let list = arguments("server --ipc-server=abc --client-pid=42");
    assert_eq!(argument_value(&list, "--ipc-server").as_deref(), Some("abc"));
    assert_eq!(argument_value(&list, "--client-pid").as_deref(), Some("42"));
}

#[test]
fn reads_space_form() {
    let list = arguments("server --ipc-server abc --client-pid 42");
    assert_eq!(argument_value(&list, "--ipc-server").as_deref(), Some("abc"));
    assert_eq!(argument_value(&list, "--client-pid").as_deref(), Some("42"));
}

/// Where values were torn off and put at the end, the next switch is not taken for a value.
#[test]
fn does_not_take_next_switch_as_value() {
    let list = arguments(
        "server --ipc-server --client-pid --use-gpu --logging --do-not-de-elevate abc 42 1 0",
    );
    assert_eq!(argument_value(&list, "--ipc-server"), None);
    assert_eq!(argument_value(&list, "--client-pid"), None);
}

#[test]
fn keeps_equals_form_after_chromium_rebuild() {
    let list =
        arguments("server --ipc-server=abc --client-pid=42 --no-sandbox --do-not-de-elevate");
    assert_eq!(argument_value(&list, "--ipc-server").as_deref(), Some("abc"));
    assert_eq!(argument_value(&list, "--client-pid").as_deref(), Some("42"));
}

#[test]
fn missing_argument_is_none() {
    let list = arguments("server --client-pid=42");
    assert_eq!(argument_value(&list, "--ipc-server"), None);
}

#[test]
fn first_occurrence_decides() {
    let list = arguments("server --name --name=late");
    assert_eq!(argument_value(&list, "--name"), None);
    let list = arguments("server --name=early --name=late");
    assert_eq!(argument_value(&list, "--name").as_deref(), Some("early"));
}

#[test]
fn empty_value_behind_the_equals_sign_is_a_value() {
    let list = arguments("server --name= x");
    assert_eq!(argument_value(&list, "--name").as_deref(), Some(""));
    let list = arguments("server --names=x");
    assert_eq!(argument_value(&list, "--name"), None);
}

#[test]
fn options_have_defaults() {
    let options = server_options(&arguments("server"));
    assert!(!options.logging);
    assert!(options.use_gpu);
    assert_eq!(options.ipc_server, None);
    assert_eq!(options.client_pid, None);
}

#[test]
fn options_are_read() {
    let options = server_options(&arguments(
        "server --logging=7 --use-gpu=0 --client-pid=4294967295 --ipc-server=x",
    ));
    assert!(options.logging);
    assert!(!options.use_gpu);
    assert_eq!(options.ipc_server.as_deref(), Some("x"));
    assert_eq!(options.client_pid, Some(4_294_967_295));
}

#[test]
fn values_that_are_no_numbers_count_for_nothing() {
    let list = arguments("server --logging=yes --use-gpu=no --client-pid=-1");
    let options = server_options(&list);
    assert!(!options.logging);
    assert!(options.use_gpu);
    assert_eq!(options.client_pid, None);
    assert!(switch_is_on(&list, "--use-gpu", true));
    let list = arguments("server --logging=2147483648 --use-gpu=-0");
    assert!(!server_options(&list).logging);
    assert!(!server_options(&list).use_gpu);
    let list = arguments("server --logging=-2147483648 --use-gpu=+0");
    assert!(server_options(&list).logging);
    assert!(!server_options(&list).use_gpu);
}

#[test]
fn server_reads_what_the_client_says() {
    let mut list = vec!["/opt/server".to_string()];
    list.extend(server_arguments("/tmp/a=b --c", 31_337, false, true));
    assert_eq!(list[1], "--ipc-server=/tmp/a=b --c");
    assert_eq!(list[2], "--client-pid=31337");
    assert_eq!(list[3], "--use-gpu=0");
    assert_eq!(list[4], "--logging=1");
    let options = server_options(&list);
    assert_eq!(options.ipc_server.as_deref(), Some("/tmp/a=b --c"));
    assert_eq!(options.client_pid, Some(31_337));
    assert!(!options.use_gpu);
    assert!(options.logging);
}

#[test]
fn following_argument_is_taken_as_it_is() {
    let list = arguments("server --socket-path --odd --socket-path y");
    assert_eq!(following_argument(&list, "--socket-path").as_deref(), Some("--odd"));
    assert_eq!(following_argument(&arguments("server --socket-path"), "--socket-path"), None);
    assert_eq!(following_argument(&arguments("server"), "--socket-path"), None);
}

#[test]
fn helper_names_its_kind() {
    assert_eq!(process_type(&arguments("helper --a --type=gpu --type=late")), "--type=gpu");
    assert_eq!(process_type(&arguments("helper --types=gpu")), "unknown");
}

#[test]
fn socket_is_named_after_the_process() {
    assert_eq!(socket_file_name(0), "cef-unity-0.sock");
    assert_eq!(socket_file_name(4711), "cef-unity-4711.sock");
}
