//! The two external tools of a task, and how each is invoked.
//!
//! A cover is first resized by ImageMagick's `convert`, which reads it from
//! its standard input and writes a lossless intermediate file. That file is
//! then compressed by `guetzli`, which writes the final image to its
//! standard output.

use vstd::prelude::*;
use vstd::string::StringExecFns;

verus! {

/// How to start one external process.
#[derive(Clone, Debug, PartialEq, Eq)]
pub struct Command {
    /// Name of the program.
    pub program: String,
    /// Its arguments, in order.
    pub args: Vec<String>,
    /// What to write to its standard input, if it reads from there.
    pub stdin: Option<Vec<u8>>,
    /// Whether its standard output is kept for later.
    pub capture_stdout: bool,
}

/// A [`Command`] as plain values.
pub struct CommandView {
    pub program: Seq<char>,
    pub args: Seq<Seq<char>>,
    pub stdin: Option<Seq<u8>>,
    pub capture_stdout: bool,
}

/// The arguments as plain values.
pub open spec fn args_view(args: Seq<String>) -> Seq<Seq<char>> {
    args.map_values(|arg: String| arg@)
}

impl View for Command {
    type V = CommandView;

    open spec fn view(&self) -> CommandView {
        CommandView {
            program: self.program@,
            args: args_view(self.args@),
            stdin: match self.stdin {
                Some(bytes) => Some(bytes@),
                None => None,
            },
            capture_stdout: self.capture_stdout,
        }
    }
}

/// The arguments that make `convert` turn the image on its standard input
/// into a thumbnail at `out_path`.
///
/// The image is blended with a black background and its alpha channel is
/// dropped before anything else: the encoder that follows knows no
/// transparency, and a resize that still sees the background darkens the
/// edges. The resize itself happens in a linear colour space, with the edge
/// pixels repeated outwards, to a square of 140 pixels whatever the shape of
/// the cover. Then the image goes back to sRGB, loses its metadata, and is
/// written without loss.
pub open spec fn resize_args(out_path: Seq<char>) -> Seq<Seq<char>> {
    seq![
        "-"@,
        "-background"@,
        "black"@,
        "-alpha"@,
        "remove"@,
        "-alpha"@,
        "off"@,
        "-flatten"@,
        "-colorspace"@,
        "RGB"@,
        "-virtual-pixel"@,
        "Edge"@,
        "-filter"@,
        "Cosine"@,
        "-distort"@,
        "Resize"@,
        "140x140!"@,
        "-colorspace"@,
        "sRGB"@,
        "-strip"@,
        out_path,
    ]
}

/// The resize process for a cover: `convert`, fed with the cover's bytes.
pub open spec fn spec_resize_command(cover: Seq<u8>, out_path: Seq<char>) -> CommandView {
    CommandView {
        program: "convert"@,
        args: resize_args(out_path),
        stdin: Some(cover),
        capture_stdout: false,
    }
}

/// The arguments that make `guetzli` compress the file at `in_path` at
/// quality 97 and write the result to its standard output. It does not know
/// `-` for that, so the output is named by its device file.
pub open spec fn compress_args(in_path: Seq<char>) -> Seq<Seq<char>> {
    seq!["--quality"@, "97"@, in_path, "/dev/fd/1"@]
}

/// The compress process for an intermediate file: `guetzli`, with its
/// output kept.
pub open spec fn spec_compress_command(in_path: Seq<char>) -> CommandView {
    CommandView {
        program: "guetzli"@,
        args: compress_args(in_path),
        stdin: None,
        capture_stdout: true,
    }
}

fn push_arg(args: &mut Vec<String>, arg: &str)
    ensures
        args_view(final(args)@) == args_view(old(args)@).push(arg@),
{
    args.push(String::from_str(arg));
    assert(args_view(args@) =~= args_view(old(args)@).push(arg@));
}

/// The command that resizes `cover` into the file at `out_path`.
pub fn resize_command(cover: Vec<u8>, out_path: &str) -> (command: Command)
    ensures
        command@ == spec_resize_command(cover@, out_path@),
{
    let mut args: Vec<String> = Vec::new();
    assert(args_view(args@) =~= Seq::empty());
    // Read from stdin.
    push_arg(&mut args, "-");
    push_arg(&mut args, "-background");
    push_arg(&mut args, "black");
    push_arg(&mut args, "-alpha");
    push_arg(&mut args, "remove");
    push_arg(&mut args, "-alpha");
    push_arg(&mut args, "off");
    push_arg(&mut args, "-flatten");
    push_arg(&mut args, "-colorspace");
    push_arg(&mut args, "RGB");
    push_arg(&mut args, "-virtual-pixel");
    push_arg(&mut args, "Edge");
    push_arg(&mut args, "-filter");
    push_arg(&mut args, "Cosine");
    push_arg(&mut args, "-distort");
    push_arg(&mut args, "Resize");
    push_arg(&mut args, "140x140!");
    push_arg(&mut args, "-colorspace");
    push_arg(&mut args, "sRGB");
    push_arg(&mut args, "-strip");
    push_arg(&mut args, out_path);
    assert(args_view(args@) =~= resize_args(out_path@));
    Command {
        program: String::from_str("convert"),
        args,
        stdin: Some(cover),
        capture_stdout: false,
    }
}

/// The command that compresses the file at `in_path`.
pub fn compress_command(in_path: &str) -> (command: Command)
    ensures
        command@ == spec_compress_command(in_path@),
{
    let mut args: Vec<String> = Vec::new();
    assert(args_view(args@) =~= Seq::empty());
    push_arg(&mut args, "--quality");
    push_arg(&mut args, "97");
    push_arg(&mut args, in_path);
    push_arg(&mut args, "/dev/fd/1");
    assert(args_view(args@) =~= compress_args(in_path@));
    Command {
        program: String::from_str("guetzli"),
        args,
        stdin: None,
        capture_stdout: true,
    }
}

/// The order of the resize: transparency is gone before the image is
/// resized, the image is in the linear colour space while it is resized and
/// in sRGB afterwards, and the metadata goes last. The flags that remove
/// the alpha channel and flatten the image and the name of the linear
/// colour space all stand before `-distort`; `sRGB` and `-strip` stand
/// behind it.
pub proof fn lemma_resize_order(out_path: Seq<char>, i: int, j: int)
    requires
        0 <= i < 20,
        0 <= j < 20,
        resize_args(out_path)[j] == "-distort"@,
    ensures
        resize_args(out_path)[i] == "-flatten"@ || resize_args(out_path)[i] == "-alpha"@
            || resize_args(out_path)[i] == "-background"@ || resize_args(out_path)[i] == "RGB"@
            ==> i < j,
        resize_args(out_path)[i] == "sRGB"@ || resize_args(out_path)[i] == "-strip"@ ==> j < i,
        exists|k: int| 0 <= k < j && resize_args(out_path)[k] == "-flatten"@,
{
    reveal_strlit("-");
    reveal_strlit("-background");
    reveal_strlit("black");
    reveal_strlit("-alpha");
    reveal_strlit("remove");
    reveal_strlit("off");
    reveal_strlit("-flatten");
    reveal_strlit("-colorspace");
    reveal_strlit("RGB");
    reveal_strlit("-virtual-pixel");
    reveal_strlit("Edge");
    reveal_strlit("-filter");
    reveal_strlit("Cosine");
    reveal_strlit("-distort");
    reveal_strlit("Resize");
    reveal_strlit("140x140!");
    reveal_strlit("sRGB");
    reveal_strlit("-strip");
    let args = resize_args(out_path);
    assert(args[14] == "-distort"@);
    assert(j == 14) by {
        assert(forall|k: int| 0 <= k < 20 && k != 14 ==> args[k].len() != 8 || args[k][1] != 'd');
        assert("-distort"@.len() == 8 && "-distort"@[1] == 'd');
    }
    assert(args[7] == "-flatten"@);
    if args[i] == "-strip"@ {
        assert("-strip"@.len() == 6 && "-strip"@[1] == 's');
        assert(forall|k: int| 0 <= k < 20 && k != 19 ==> args[k].len() != 6 || args[k][1] != 's');
    }
    if args[i] == "sRGB"@ {
        assert("sRGB"@.len() == 4 && "sRGB"@[0] == 's');
        assert(forall|k: int| 0 <= k < 20 && k != 18 ==> args[k].len() != 4 || args[k][0] != 's');
    }
    if args[i] == "RGB"@ {
        assert("RGB"@.len() == 3 && "RGB"@[0] == 'R');
        assert(forall|k: int| 0 <= k < 20 && k != 9 ==> args[k].len() != 3 || args[k][0] != 'R');
    }
    if args[i] == "-flatten"@ || args[i] == "-alpha"@ || args[i] == "-background"@ {
        assert("-flatten"@[1] == 'f' && "-flatten"@.len() == 8);
        assert("-alpha"@[1] == 'a' && "-alpha"@.len() == 6);
        assert("-background"@[1] == 'b' && "-background"@.len() == 11);
        assert(forall|k: int| 14 <= k < 20 ==> args[k].len() < 2 || (args[k][1] != 'f' && args[k][1] != 'a' && args[k][1] != 'b'));
    }
}

} // verus!
