use vstd::prelude::*;

use crate::decimal::{decimal_digits, digit_char, u64_to_decimal};
use vstd::string::StrSliceExecFns;

verus! {

/// The path of the file `name` inside the directory `dir`: the two joined by
/// one `/`, with none added when `dir` is empty or already ends in `/`.
pub open spec fn path_in_dir(dir: Seq<char>, name: Seq<char>) -> Seq<char> {
    if dir.len() == 0 || dir.last() == '/' {
        dir + name
    } else {
        dir + seq!['/'] + name
    }
}

/// Joins `dir` and `name` as `path_in_dir` says.
pub fn file_in_dir(dir: &str, name: &str) -> (path: String)
    ensures
        path@ == path_in_dir(dir@, name@),
{
    let mut path = String::from_str(dir);
    let len = dir.unicode_len();
    if len > 0 && dir.get_char(len - 1) != '/' {
        proof {
            reveal_strlit("/");
        }
        path.append("/");
    }
    path.append(name);
    path
}

/// The name of the file that the fetched audio of download number `counter`
/// is written to, inside the output directory.
pub open spec fn raw_file_name_spec(counter: u32) -> Seq<char> {
    "track_"@ + decimal_digits(counter as nat) + "_raw.webm"@
}

/// The name of the converted file of download number `counter`, inside the
/// output directory.
pub open spec fn mp3_file_name_spec(counter: u32) -> Seq<char> {
    "track_"@ + decimal_digits(counter as nat) + ".mp3"@
}

/// `track_{counter}_raw.webm`
pub fn raw_file_name(counter: u32) -> (name: String)
    ensures
        name@ == raw_file_name_spec(counter),
{
    let mut name = String::from_str("track_");
    let digits = u64_to_decimal(counter as u64);
    name.append(digits.as_str());
    name.append("_raw.webm");
    name
}

/// `track_{counter}.mp3`
pub fn mp3_file_name(counter: u32) -> (name: String)
    ensures
        name@ == mp3_file_name_spec(counter),
{
    let mut name = String::from_str("track_");
    let digits = u64_to_decimal(counter as u64);
    name.append(digits.as_str());
    name.append(".mp3");
    name
}

/// `{output_dir}/track_{counter}_raw.webm`
pub fn raw_file_path(output_dir: &str, counter: u32) -> (path: String)
    ensures
        path@ == path_in_dir(output_dir@, raw_file_name_spec(counter)),
{
    let name = raw_file_name(counter);
    file_in_dir(output_dir, name.as_str())
}

/// `{output_dir}/track_{counter}.mp3`
pub fn mp3_file_path(output_dir: &str, counter: u32) -> (path: String)
    ensures
        path@ == path_in_dir(output_dir@, mp3_file_name_spec(counter)),
{
    let name = mp3_file_name(counter);
    file_in_dir(output_dir, name.as_str())
}

/// The converter program inside the helper programs' directory.
pub open spec fn ffmpeg_program_spec(executables_dir: Seq<char>) -> Seq<char> {
    path_in_dir(executables_dir, "ffmpeg"@)
}

/// `{executables_dir}/ffmpeg`
pub fn ffmpeg_program(executables_dir: &str) -> (program: String)
    ensures
        program@ == ffmpeg_program_spec(executables_dir@),
{
    file_in_dir(executables_dir, "ffmpeg")
}

/// Different one-digit counters give different file names and, in one
/// directory, different paths.
pub proof fn lemma_file_names_differ(dir: Seq<char>, c1: u32, c2: u32)
    requires
        c1 < 10,
        c2 < 10,
        c1 != c2,
    ensures
        raw_file_name_spec(c1) != raw_file_name_spec(c2),
        mp3_file_name_spec(c1) != mp3_file_name_spec(c2),
        path_in_dir(dir, raw_file_name_spec(c1)) != path_in_dir(dir, raw_file_name_spec(c2)),
        path_in_dir(dir, mp3_file_name_spec(c1)) != path_in_dir(dir, mp3_file_name_spec(c2)),
{
    let t = "track_"@;
    assert(decimal_digits(c1 as nat) == seq![digit_char(c1 as nat)]);
    assert(decimal_digits(c2 as nat) == seq![digit_char(c2 as nat)]);
    assert(digit_char(c1 as nat) != digit_char(c2 as nat));
    let prefix = if dir.len() == 0 || dir.last() == '/' { dir } else { dir + seq!['/'] };
    let k = t.len();
    let r1 = raw_file_name_spec(c1);
    let r2 = raw_file_name_spec(c2);
    let m1 = mp3_file_name_spec(c1);
    let m2 = mp3_file_name_spec(c2);
    assert(r1[k as int] == digit_char(c1 as nat));
    assert(r2[k as int] == digit_char(c2 as nat));
    assert(m1[k as int] == digit_char(c1 as nat));
    assert(m2[k as int] == digit_char(c2 as nat));
    assert(path_in_dir(dir, r1) =~= prefix + r1);
    assert(path_in_dir(dir, r2) =~= prefix + r2);
    assert(path_in_dir(dir, m1) =~= prefix + m1);
    assert(path_in_dir(dir, m2) =~= prefix + m2);
    assert((prefix + r1)[(prefix.len() + k) as int] != (prefix + r2)[(prefix.len() + k) as int]);
    assert((prefix + m1)[(prefix.len() + k) as int] != (prefix + m2)[(prefix.len() + k) as int]);
}

/// The arguments that make ffmpeg convert `input` to an MP3 file at `output`
/// with LAME at variable quality 2, overwriting it and dropping any video.
pub open spec fn ffmpeg_args_spec(input: Seq<char>, output: Seq<char>) -> Seq<Seq<char>> {
    seq![
        "-y"@,
        "-i"@,
        input,
        "-vn"@,
        "-codec:a"@,
        "libmp3lame"@,
        "-qscale:a"@,
        "2"@,
        output,
    ]
}

fn push_str(args: &mut Vec<String>, arg: &str)
    ensures
        final(args)@.len() == old(args)@.len() + 1,
        forall|i: int| 0 <= i < old(args)@.len() ==> final(args)@[i] == old(args)@[i],
        final(args)@[old(args)@.len() as int]@ == arg@,
{
    args.push(String::from_str(arg));
}

/// The ffmpeg command line, after the program name, that converts `input`
/// into `output`.
pub fn ffmpeg_args(input: &str, output: &str) -> (args: Vec<String>)
    ensures
        args@.len() == 9,
        forall|i: int| 0 <= i < 9 ==> #[trigger] args@[i]@ == ffmpeg_args_spec(input@, output@)[i],
{
    let mut args: Vec<String> = Vec::new();
    push_str(&mut args, "-y");
    push_str(&mut args, "-i");
    push_str(&mut args, input);
    push_str(&mut args, "-vn");
    push_str(&mut args, "-codec:a");
    push_str(&mut args, "libmp3lame");
    push_str(&mut args, "-qscale:a");
    push_str(&mut args, "2");
    push_str(&mut args, output);
    args
}

} // verus!
