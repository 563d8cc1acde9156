use wled_control::{build_off_command, build_state_command, Rgb, Run};

fn run(start: u32, end: u32, r: u8, g: u8, b: u8) -> Run {
    Run { start, end, color: Rgb { r, g, b } }
}

#[test]
fn single_run_payload() {
    let s = build_state_command(true, 100, &vec![run(0, 1, 255, 0, 0)]);
    assert!(s.contains("0,1,[255,0,0]"));
    assert!(!s.contains(",]}}"));
    assert!(!s.contains(", ]}}"));
    assert_eq!(s, "{\"on\":true, \"bri\":100, \"seg\":{\"i\":[0,1,[255,0,0]]}}");
}

#[test]
fn several_runs_payload() {
    let runs = vec![run(0, 2, 1, 2, 3), run(2, 5, 40, 50, 60), run(5, 256, 7, 8, 9)];
    let s = build_state_command(false, 7, &runs);
    assert_eq!(
        s,
        "{\"on\":false, \"bri\":7, \"seg\":{\"i\":[0,2,[1,2,3],2,5,[40,50,60],5,256,[7,8,9]]}}"
    );
}

#[test]
fn brightness_and_on_state_are_passed_through() {
    let s = build_state_command(false, 0, &vec![run(0, 4, 0, 0, 0)]);
    assert!(s.starts_with("{\"on\":false, \"bri\":0, "));
    let s = build_state_command(true, 255, &vec![run(0, 4, 0, 0, 0)]);
    assert!(s.starts_with("{\"on\":true, \"bri\":255, "));
}

#[test]
fn large_indices_are_written_in_full() {
    let s = build_state_command(true, 10, &vec![run(0, 4294967295, 10, 100, 200)]);
    assert!(s.contains("0,4294967295,[10,100,200]"));
}

#[test]
fn off_payload() {
    assert_eq!(build_off_command(), "{\"on\":false,\"bri\":0}");
}

