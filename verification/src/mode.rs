//! Input adapters, their labels, and the rotation between the synthetic
//! generator flavours.
use vstd::prelude::*;
use crate::text::same_text;

verus! {

/// Where the engine's lines come from.
#[derive(Debug)]
pub enum InputMode {
    Synthetic,
    Stdin,
    File(String),
    Tail(String),
    Ping(String),
    Build,
}

/// The mathematical value of an `InputMode`: its kind and, where it has one,
/// the path or host as chars.
pub enum ModeSpec {
    Synthetic,
    Stdin,
    File(Seq<char>),
    Tail(Seq<char>),
    Ping(Seq<char>),
    Build,
}

impl View for InputMode {
    type V = ModeSpec;

    open spec fn view(&self) -> ModeSpec {
        match self {
            InputMode::Synthetic => ModeSpec::Synthetic,
            InputMode::Stdin => ModeSpec::Stdin,
            InputMode::File(p) => ModeSpec::File(p@),
            InputMode::Tail(p) => ModeSpec::Tail(p@),
            InputMode::Ping(h) => ModeSpec::Ping(h@),
            InputMode::Build => ModeSpec::Build,
        }
    }
}

/// The argument at `i`, or `default` when there are not that many.
pub open spec fn arg_or(args: Seq<Seq<char>>, i: int, default: Seq<char>) -> Seq<char> {
    if i < args.len() {
        args[i]
    } else {
        default
    }
}

/// The adapter that a command line (program name first) selects.
pub open spec fn parsed_mode(args: Seq<Seq<char>>) -> ModeSpec {
    if args.len() < 2 {
        ModeSpec::Synthetic
    } else {
        let a = args[1];
        if a == "--stdin"@ || a == "stdin"@ {
            ModeSpec::Stdin
        } else if a == "--file"@ || a == "file"@ {
            ModeSpec::File(arg_or(args, 2, "Cargo.toml"@))
        } else if a == "tail"@ {
            ModeSpec::Tail(arg_or(args, 2, "Cargo.toml"@))
        } else if a == "ping"@ {
            ModeSpec::Ping(arg_or(args, 2, "google.com"@))
        } else if a == "build"@ {
            ModeSpec::Build
        } else {
            ModeSpec::Synthetic
        }
    }
}

/// The label that names an adapter on screen and selects its ingestion rules.
pub open spec fn label_of(m: ModeSpec) -> Seq<char> {
    match m {
        ModeSpec::Synthetic => "SYNTHETIC STREAM"@,
        ModeSpec::Stdin => "STDIN STREAM"@,
        ModeSpec::File(p) => "FILE: "@ + p,
        ModeSpec::Tail(p) => "TAIL: "@ + p,
        ModeSpec::Ping(h) => "PING: "@ + h,
        ModeSpec::Build => "CARGO BUILD"@,
    }
}

/// The labels of the four synthetic generator flavours.
pub open spec fn is_synthetic_label(s: Seq<char>) -> bool {
    ||| s == "SYNTHETIC STREAM"@
    ||| s == "CALM STREAM"@
    ||| s == "CHAOS STREAM"@
    ||| s == "PULSE STORM"@
}

/// The label after `s` in the rotation SYNTHETIC -> CALM -> CHAOS -> PULSE
/// STORM -> SYNTHETIC; any other label goes to SYNTHETIC STREAM.
pub open spec fn next_label(s: Seq<char>) -> Seq<char> {
    if s == "SYNTHETIC STREAM"@ {
        "CALM STREAM"@
    } else if s == "CALM STREAM"@ {
        "CHAOS STREAM"@
    } else if s == "CHAOS STREAM"@ {
        "PULSE STORM"@
    } else {
        "SYNTHETIC STREAM"@
    }
}

/// A copy of the argument at `i`, or `default`.
fn arg_or_default(args: &Vec<String>, i: usize, default: &str) -> (res: String)
    ensures
        res@ == arg_or(args@.map_values(|s: String| s@), i as int, default@),
{
    if i < args.len() {
        args[i].clone()
    } else {
        String::from_str(default)
    }
}

/// The adapter selected by the command line `args` (program name first).
pub fn parse_mode(args: &Vec<String>) -> (res: InputMode)
    ensures
        res@ == parsed_mode(args@.map_values(|s: String| s@)),
{
    let ghost view = args@.map_values(|s: String| s@);
    if args.len() < 2 {
        return InputMode::Synthetic;
    }
    let a = args[1].as_str();
    assert(a@ == view[1]);
    if same_text(a, "--stdin") || same_text(a, "stdin") {
        InputMode::Stdin
    } else if same_text(a, "--file") || same_text(a, "file") {
        InputMode::File(arg_or_default(args, 2, "Cargo.toml"))
    } else if same_text(a, "tail") {
        InputMode::Tail(arg_or_default(args, 2, "Cargo.toml"))
    } else if same_text(a, "ping") {
        InputMode::Ping(arg_or_default(args, 2, "google.com"))
    } else if same_text(a, "build") {
        InputMode::Build
    } else {
        InputMode::Synthetic
    }
}

/// The on-screen label of an adapter.
pub fn mode_label(mode: &InputMode) -> (res: String)
    ensures
        res@ == label_of(mode@),
{
    match mode {
        InputMode::Synthetic => String::from_str("SYNTHETIC STREAM"),
        InputMode::Stdin => String::from_str("STDIN STREAM"),
        InputMode::File(path) => {
            let mut s = String::from_str("FILE: ");
            s.append(path.as_str());
            s
        },
        InputMode::Tail(path) => {
            let mut s = String::from_str("TAIL: ");
            s.append(path.as_str());
            s
        },
        InputMode::Ping(host) => {
            let mut s = String::from_str("PING: ");
            s.append(host.as_str());
            s
        },
        InputMode::Build => String::from_str("CARGO BUILD"),
    }
}

/// Whether `mode` is the label of a synthetic generator flavour.
pub fn is_synthetic_mode(mode: &str) -> (res: bool)
    ensures
        res == is_synthetic_label(mode@),
{
    same_text(mode, "SYNTHETIC STREAM") || same_text(mode, "CALM STREAM") || same_text(
        mode,
        "CHAOS STREAM",
    ) || same_text(mode, "PULSE STORM")
}

/// The label that follows `label` in the synthetic rotation.
pub fn next_mode_label(label: &str) -> (res: String)
    ensures
        res@ == next_label(label@),
{
    if same_text(label, "SYNTHETIC STREAM") {
        String::from_str("CALM STREAM")
    } else if same_text(label, "CALM STREAM") {
        String::from_str("CHAOS STREAM")
    } else if same_text(label, "CHAOS STREAM") {
        String::from_str("PULSE STORM")
    } else {
        String::from_str("SYNTHETIC STREAM")
    }
}

} // verus!
