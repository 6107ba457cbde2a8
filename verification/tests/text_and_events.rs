use stable_diffusion_bot::comfy::execution::{filter_update, finished_outputs, Execution, Step};
use stable_diffusion_bot::comfy::models::{
    Executed, Executing, ExecutionInterrupted, Image, NodeOutput, NodeOutputOrUnknown, Output,
    Outputs, Progress, Update,
};
use stable_diffusion_bot::numbers::{parse_i64, parse_u32, push_decimal, push_signed_decimal};
use stable_diffusion_bot::text::{blank, escape_markdown, is_whitespace, starts_with};

#[test]
fn parses_integers_like_rust() {
    assert_eq!(parse_u32("42"), Some(42));
    assert_eq!(parse_u32("+5"), Some(5));
    assert_eq!(parse_u32("4294967295"), Some(u32::MAX));
    assert_eq!(parse_u32("4294967296"), None);
    assert_eq!(parse_u32("-0"), None);
    assert_eq!(parse_u32(""), None);
    assert_eq!(parse_u32("+"), None);
    assert_eq!(parse_u32("1a"), None);
    assert_eq!(parse_i64("-9223372036854775808"), Some(i64::MIN));
    assert_eq!(parse_i64("9223372036854775807"), Some(i64::MAX));
    assert_eq!(parse_i64("9223372036854775808"), None);
    assert_eq!(parse_i64("-0"), Some(0));
    assert_eq!(parse_i64("-"), None);
    for s in ["0", "17", "-17", "+3", "x", "", "99999999999999999999"] {
        assert_eq!(parse_i64(s), s.parse::<i64>().ok());
        assert_eq!(parse_u32(s), s.parse::<u32>().ok());
    }
}

#[test]
fn formats_decimals() {
    let mut s = String::from("n=");
    push_decimal(&mut s, 1234567890);
    assert_eq!(s, "n=1234567890");
    let mut s = String::new();
    push_signed_decimal(&mut s, i64::MIN);
    assert_eq!(s, i64::MIN.to_string());
    let mut s = String::new();
    push_decimal(&mut s, 0);
    assert_eq!(s, "0");
}

#[test]
fn escapes_markdown() {
    assert_eq!(escape_markdown("a_b*c.d!"), "a\\_b\\*c\\.d\\!");
    assert_eq!(escape_markdown("plain"), "plain");
    assert!(blank(" \t\n"));
    assert!(blank(""));
    assert!(!blank(" x "));
    assert!(starts_with("settings_seed", "settings"));
    assert!(!starts_with("set", "settings"));
}

fn image(name: &str) -> Image {
    Image { filename: name.to_string(), subfolder: String::new(), folder_type: "output".to_string() }
}

#[test]
fn filters_updates_of_the_prompt() {
    let target = 7u128;
    assert!(matches!(
        filter_update(Update::Executing(Executing { prompt_id: Some(7), node: None }), target),
        Step::FetchHistory(7)
    ));
    assert!(matches!(
        filter_update(Update::Executing(Executing { prompt_id: Some(8), node: None }), target),
        Step::Skip
    ));
    assert!(matches!(
        filter_update(Update::Executing(Executing { prompt_id: Some(7), node: Some("3".to_string()) }), target),
        Step::Skip
    ));
    match filter_update(
        Update::Executed(Executed { prompt_id: 7, node: "9".to_string(), output: Output { images: vec![image("a.png")] } }),
        target,
    ) {
        Step::Executed(node, images) => {
            assert_eq!(node, "9");
            assert_eq!(images, vec![image("a.png")]);
        }
        _ => panic!("expected executed"),
    }
    assert!(matches!(
        filter_update(
            Update::ExecutionInterrupted(ExecutionInterrupted {
                prompt_id: 7,
                node_id: "3".to_string(),
                node_type: "KSampler".to_string(),
                executed: vec![],
            }),
            target
        ),
        Step::Interrupted(_)
    ));
    assert!(matches!(filter_update(Update::Progress(Progress { value: 1, max: 2 }), target), Step::Skip));
}

#[test]
fn finished_prompt_fetches_unseen_outputs() {
    let outputs = Outputs {
        nodes: vec![
            ("9".to_string(), NodeOutputOrUnknown::NodeOutput(NodeOutput { images: vec![image("a.png")] })),
            ("10".to_string(), NodeOutputOrUnknown::Unknown("{}".to_string())),
            ("11".to_string(), NodeOutputOrUnknown::NodeOutput(NodeOutput { images: vec![image("b.png"), image("c.png")] })),
        ],
    };
    let finished = finished_outputs(&outputs);
    assert_eq!(finished.len(), 2);
    let mut e = Execution::new();
    let first = e.on_executed("9".to_string(), vec![image("a.png")]);
    assert_eq!(first, vec![("9".to_string(), image("a.png"))]);
    let rest = e.on_finished(&finished);
    assert_eq!(rest, vec![("11".to_string(), image("b.png")), ("11".to_string(), image("c.png"))]);
    assert!(e.finished);
}

#[test]
fn white_space_is_what_std_reports() {
    for n in 0..=0x10FFFFu32 {
        if let Some(c) = char::from_u32(n) {
            assert_eq!(is_whitespace(c), c.is_whitespace(), "U+{:04X}", n);
        }
    }
    assert!(is_whitespace('\u{3000}'));
    assert!(!is_whitespace('\u{200B}'));
}
