use stable_diffusion_bot::float_bits::FloatBits;
use stable_diffusion_bot::workflow::access::{AccessError, Field, SlotValue};
use stable_diffusion_bot::workflow::builder::{BuildError, PromptBuilder};
use stable_diffusion_bot::workflow::ext::{
    CfgExt, GetExt, ModelExt, NegativePromptExt, PromptExt, SamplerExt, SeedExt, StepsExt,
    WidthExt,
};
use stable_diffusion_bot::workflow::info::{ImageInfo, ImageInfoError};
use stable_diffusion_bot::workflow::node::{
    CLIPTextEncode, CheckpointLoaderSimple, EmptyLatentImage, Input, KSampler, Node, NodeConnection,
    NodeKind, NodeOrUnknown, SaveImage, VAEDecode,
};
use stable_diffusion_bot::workflow::prompt::Prompt;
use stable_diffusion_bot::workflow::setter::{Model, Seed, SetExt, Width};

fn conn(id: &str) -> NodeConnection {
    NodeConnection { node_id: id.to_string(), output_index: 0 }
}

fn float(v: f64) -> FloatBits {
    FloatBits { bits: v.to_bits() }
}

fn workflow() -> Prompt {
    let nodes: Vec<(String, NodeOrUnknown)> = vec![
        (
            "3".to_string(),
            NodeOrUnknown::Node(Node::KSampler(KSampler {
                cfg: Input::Value(float(8.0)),
                denoise: Input::Value(float(1.0)),
                sampler_name: Input::Value("euler".to_string()),
                scheduler: Input::Value("normal".to_string()),
                seed: Input::Value(42),
                steps: Input::Value(20),
                positive: conn("6"),
                negative: conn("7"),
                model: conn("4"),
                latent_image: conn("5"),
            })),
        ),
        (
            "4".to_string(),
            NodeOrUnknown::Node(Node::CheckpointLoaderSimple(CheckpointLoaderSimple {
                ckpt_name: Input::Value("model.safetensors".to_string()),
            })),
        ),
        (
            "5".to_string(),
            NodeOrUnknown::Node(Node::EmptyLatentImage(EmptyLatentImage {
                batch_size: Input::Value(1),
                width: Input::Value(512),
                height: Input::Value(512),
            })),
        ),
        (
            "6".to_string(),
            NodeOrUnknown::Node(Node::CLIPTextEncode(CLIPTextEncode {
                text: Input::Value("a cat".to_string()),
                clip: conn("4"),
            })),
        ),
        (
            "7".to_string(),
            NodeOrUnknown::Node(Node::CLIPTextEncode(CLIPTextEncode {
                text: Input::Value("blurry".to_string()),
                clip: conn("4"),
            })),
        ),
        (
            "8".to_string(),
            NodeOrUnknown::Node(Node::VAEDecode(VAEDecode { samples: conn("3"), vae: conn("4") })),
        ),
        (
            "9".to_string(),
            NodeOrUnknown::Node(Node::SaveImage(SaveImage {
                filename_prefix: Input::Value("ComfyUI".to_string()),
                images: conn("8"),
            })),
        ),
    ];
    Prompt { workflow: nodes }
}

#[test]
fn finds_output_node() {
    assert_eq!(workflow().find_output_node(), Some("9".to_string()));
    assert_eq!(Prompt::new().find_output_node(), None);
}

#[test]
fn walks_inputs_depth_first() {
    let order = workflow().walk("9");
    assert_eq!(order, vec!["9", "8", "3", "6", "4", "7", "4", "4", "5", "4"]);
}

#[test]
fn finds_nodes_by_kind() {
    let p = workflow();
    assert_eq!(p.find_node(NodeKind::KSampler, None), Some("3".to_string()));
    assert_eq!(p.find_node(NodeKind::CLIPTextEncode, Some("9")), Some("7".to_string()));
    assert_eq!(p.find_node(NodeKind::LoadImage, None), None);
    assert_eq!(p.guess_node(NodeKind::EmptyLatentImage), Some(2));
}

#[test]
fn reads_parameters() {
    let p = workflow();
    assert_eq!(p.seed(), Ok(42));
    assert_eq!(p.steps(), Ok(20));
    assert_eq!(p.width(), Ok(512));
    assert_eq!(p.ckpt_name(), Ok("model.safetensors".to_string()));
    assert_eq!(p.sampler_name(), Ok("euler".to_string()));
    assert_eq!(p.cfg(), Ok(float(8.0)));
    // Both texts are read from the encoder the walk reaches last.
    assert_eq!(p.prompt(), Ok("blurry".to_string()));
    assert_eq!(p.negative_prompt(), Ok("blurry".to_string()));
}

#[test]
fn writes_then_reads_parameters() {
    let mut p = workflow();
    assert_eq!(p.set_seed(123), Ok(()));
    assert_eq!(p.seed(), Ok(123));
    assert_eq!(p.set_prompt("a dog".to_string()), Ok(()));
    assert_eq!(p.prompt(), Ok("a dog".to_string()));
    assert_eq!(p.set_field(Field::Steps, SlotValue::Count(30)), Ok(()));
    assert_eq!(p.get_field(Field::Steps), Ok(SlotValue::Count(30)));
}

#[test]
fn missing_node_errors() {
    let mut p = Prompt::new();
    assert_eq!(p.seed(), Err(AccessError::NodeNotFound));
    assert_eq!(p.set_seed(1), Err(AccessError::NodeNotFound));
}

#[test]
fn connected_input_is_not_a_value() {
    let mut p = workflow();
    if let NodeOrUnknown::Node(Node::KSampler(k)) = &mut p.workflow[0].1 {
        k.seed = Input::NodeConnection(conn("4"));
    }
    if let NodeOrUnknown::Node(Node::EmptyLatentImage(e)) = &mut p.workflow[2].1 {
        e.width = Input::NodeConnection(conn("4"));
    }
    assert_eq!(p.width(), Err(AccessError::NotAValue));
    assert_eq!(p.set_width(5), Err(AccessError::NotAValue));
    // The seed falls back to a SamplerCustom node, and there is none.
    assert_eq!(p.seed(), Err(AccessError::NodeNotFound));
    assert_eq!(p.set_seed(5), Err(AccessError::NodeNotFound));
}

#[test]
fn typed_node_lookup() {
    let p = workflow();
    assert!(p.get_typed_node("3", NodeKind::KSampler).is_ok());
    assert_eq!(p.get_typed_node("3", NodeKind::SaveImage).err(), Some(AccessError::WrongNodeType));
    assert_eq!(p.get_typed_node("42", NodeKind::KSampler).err(), Some(AccessError::NodeNotFound));
}

#[test]
fn setters_write_fields() {
    let mut p = workflow();
    assert_eq!(p.set_node::<Model>("4", SlotValue::Text("other".to_string())), Ok(()));
    assert_eq!(p.ckpt_name(), Ok("other".to_string()));
    assert_eq!(p.set_from::<Width>("9", SlotValue::Count(768)), Ok(()));
    assert_eq!(p.width(), Ok(768));
    assert_eq!(p.set::<Seed>(SlotValue::Seed(9)), Ok(()));
    assert_eq!(p.seed(), Ok(9));
    assert_eq!(p.set::<Seed>(SlotValue::Count(9)), Err(AccessError::WrongNodeType));
}

#[test]
fn set_with_edits_guessed_node() {
    let mut p = workflow();
    let r = p.set_with(NodeKind::EmptyLatentImage, |n| match n {
        Node::EmptyLatentImage(mut e) => {
            e.batch_size = Input::Value(4);
            (Node::EmptyLatentImage(e), Ok(()))
        }
        other => (other, Err(AccessError::WrongNodeType)),
    });
    assert_eq!(r, Ok(()));
    assert_eq!(p.get_field(Field::BatchSize), Ok(SlotValue::Count(4)));
    assert_eq!(
        p.set_node_with("42", NodeKind::KSampler, |n| (n, Ok(()))),
        Err(AccessError::NodeNotFound)
    );
}

#[test]
fn image_info_from_output() {
    let info = ImageInfo::new_from_prompt(&workflow(), "9").unwrap();
    assert_eq!(info.prompt, Some("a cat".to_string()));
    assert_eq!(info.negative_prompt, Some("blurry".to_string()));
    assert_eq!(info.model, Some("model.safetensors".to_string()));
    assert_eq!(info.width, Some(512));
    assert_eq!(info.height, Some(512));
    assert_eq!(info.seed, Some(42));
    assert!(matches!(
        ImageInfo::new_from_prompt(&workflow(), "12"),
        Err(ImageInfoError::OutputNodeNotFound(s)) if s == "12"
    ));
}

#[test]
fn prompt_builder_writes_overrides() {
    let p = workflow();
    let built = PromptBuilder::new(&p, None)
        .prompt("a dog".to_string(), None)
        .negative_prompt("ugly".to_string(), None)
        .seed(7, None)
        .width(640, Some("5".to_string()))
        .build()
        .unwrap();
    let info = ImageInfo::new_from_prompt(&built, "9").unwrap();
    assert_eq!(info.prompt, Some("a dog".to_string()));
    assert_eq!(info.negative_prompt, Some("ugly".to_string()));
    assert_eq!(info.seed, Some(7));
    assert_eq!(info.width, Some(640));
}

#[test]
fn prompt_builder_without_overrides_keeps_workflow() {
    let p = workflow();
    let built = PromptBuilder::new(&p, None).build().unwrap();
    assert_eq!(built, p);
}

#[test]
fn prompt_builder_needs_output_node() {
    let r = PromptBuilder::new(&Prompt::new(), None).build();
    assert_eq!(r.err(), Some(BuildError::NoOutputNode));
}

#[test]
fn prompt_builder_reports_write_errors() {
    let p = workflow();
    let r = PromptBuilder::new(&p, None).model("m".to_string(), Some("3".to_string())).build();
    assert_eq!(r.err(), Some(BuildError::Access(AccessError::WrongNodeType)));
}

#[test]
fn setters_on_missing_nodes_fail_and_change_nothing() {
    let mut p = workflow();
    let before = p.clone();
    assert_eq!(
        p.set_node::<Model>("42", SlotValue::Text("other".to_string())),
        Err(AccessError::NodeNotFound)
    );
    assert_eq!(p, before);
    assert_eq!(p.set_from::<Width>("42", SlotValue::Count(768)), Err(AccessError::NodeNotFound));
    assert_eq!(p, before);
}

#[test]
fn prompt_builder_reports_missing_nodes() {
    let p = workflow();
    let r = PromptBuilder::new(&p, None).model("m".to_string(), Some("42".to_string())).build();
    assert_eq!(r.err(), Some(BuildError::Access(AccessError::NodeNotFound)));
    let r = PromptBuilder::new(&p, Some("42".to_string())).width(640, None).build();
    assert_eq!(r.err(), Some(BuildError::Access(AccessError::NodeNotFound)));
}
