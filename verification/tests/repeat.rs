use dinoe_core::agent::repeat::{
    detect_tool_loop, loop_message_for, ToolCallSignature, LOOP_DETECTION_THRESHOLD,
    LOOP_DETECTION_WINDOW,
};
use dinoe_core::traits::ToolCall;
use std::collections::VecDeque;

fn call(name: &str, arguments: &str) -> ToolCall {
    ToolCall { id: format!("id_{}", name), name: name.to_string(), arguments: arguments.to_string() }
}

const MESSAGE: &str = "Tool loop detected: 'shell' called 3 times with same arguments. The model may be stuck. Try rephrasing your request or using a larger model.";

#[test]
fn constants_are_five_and_three() {
    assert_eq!(LOOP_DETECTION_WINDOW, 5);
    assert_eq!(LOOP_DETECTION_THRESHOLD, 3);
}

#[test]
fn signature_is_name_and_md5_of_arguments() {
    let s = ToolCallSignature::from_tool_call(&call("shell", "{\"command\":\"date\"}"));
    assert_eq!(s.name, "shell");
    assert_eq!(s.args_hash, "5e82c7b0442cd0c1b0ef5dc194c8ef0b");
}

#[test]
fn signatures_are_the_same_by_name_and_arguments() {
    let a = ToolCallSignature::from_tool_call(&call("shell", "{}"));
    let b = ToolCallSignature::from_tool_call(&ToolCall {
        id: "another".to_string(),
        name: "shell".to_string(),
        arguments: "{}".to_string(),
    });
    let c = ToolCallSignature::from_tool_call(&call("shell", "{\"x\":1}"));
    let d = ToolCallSignature::from_tool_call(&call("other", "{}"));
    assert!(a.same(&b));
    assert!(!a.same(&c));
    assert!(!a.same(&d));
}

#[test]
fn three_identical_calls_in_three_turns_are_a_loop() {
    let mut window = VecDeque::new();
    let turn = vec![call("shell", "{\"command\":\"date\"}")];
    assert_eq!(detect_tool_loop(&mut window, &turn), None);
    assert_eq!(detect_tool_loop(&mut window, &turn), None);
    assert_eq!(detect_tool_loop(&mut window, &turn), Some(MESSAGE.to_string()));
    assert_eq!(window.len(), 3);
}

#[test]
fn three_identical_calls_in_one_turn_are_a_loop() {
    let mut window = VecDeque::new();
    let c = call("shell", "{}");
    let turn = vec![c.clone(), c.clone(), c];
    assert_eq!(detect_tool_loop(&mut window, &turn), Some(MESSAGE.to_string()));
}

#[test]
fn two_identical_calls_and_a_different_third_are_no_loop() {
    let mut window = VecDeque::new();
    let turn = vec![call("shell", "{}"), call("shell", "{}"), call("shell", "{\"x\":1}")];
    assert_eq!(detect_tool_loop(&mut window, &turn), None);
    let mut window = VecDeque::new();
    let turn = vec![call("shell", "{}"), call("shell", "{}"), call("file_read", "{}")];
    assert_eq!(detect_tool_loop(&mut window, &turn), None);
}

#[test]
fn interrupted_repeats_are_no_loop() {
    let mut window = VecDeque::new();
    let turn = vec![
        call("a", "{}"),
        call("b", "{}"),
        call("a", "{}"),
        call("b", "{}"),
        call("a", "{}"),
    ];
    assert_eq!(detect_tool_loop(&mut window, &turn), None);
}

#[test]
fn window_keeps_the_last_five() {
    let mut window = VecDeque::new();
    let turn: Vec<ToolCall> =
        ["a", "b", "c", "d", "e", "f", "g"].iter().map(|n| call(n, "{}")).collect();
    assert_eq!(detect_tool_loop(&mut window, &turn), None);
    let names: Vec<String> = window.iter().map(|s| s.name.clone()).collect();
    assert_eq!(names, vec!["c", "d", "e", "f", "g"]);
}

#[test]
fn a_run_anywhere_in_the_window_is_reported() {
    let mut window = VecDeque::new();
    let turn = vec![
        call("shell", "{}"),
        call("shell", "{}"),
        call("shell", "{}"),
        call("x", "{}"),
        call("y", "{}"),
    ];
    assert_eq!(detect_tool_loop(&mut window, &turn), Some(MESSAGE.to_string()));
}

#[test]
fn a_run_that_has_left_the_window_is_forgotten() {
    let mut window = VecDeque::new();
    let turn = vec![
        call("shell", "{}"),
        call("shell", "{}"),
        call("a", "{}"),
        call("b", "{}"),
        call("c", "{}"),
        call("d", "{}"),
        call("shell", "{}"),
    ];
    assert_eq!(detect_tool_loop(&mut window, &turn), None);
}

#[test]
fn no_calls_leave_the_window_as_it_is() {
    let mut window = VecDeque::new();
    window.push_back(ToolCallSignature::from_tool_call(&call("a", "{}")));
    assert_eq!(detect_tool_loop(&mut window, &vec![]), None);
    assert_eq!(window.len(), 1);
}

#[test]
fn message_names_the_tool() {
    assert_eq!(loop_message_for("shell"), MESSAGE);
}
