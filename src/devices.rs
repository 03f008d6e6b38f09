//! The list of audio input devices, read from the capture tool's diagnostic
//! output.
use vstd::prelude::*;
use crate::error::Error;
use crate::text::{chars_of, contains, contains_chars, find, first_index, lines_of, split_lines, string_of};

verus! {

/// The capture tool's log tag.
pub open spec fn log_tag() -> Seq<char> {
    "dshow @"@
}

/// What marks a line as an alias of a device listed before.
pub open spec fn alias_marker() -> Seq<char> {
    "]  Alternative name \""@
}

/// What marks a line as an audio device.
pub open spec fn audio_marker() -> Seq<char> {
    " (audio)"@
}

/// What opens a device name.
pub open spec fn name_open() -> Seq<char> {
    " \""@
}

/// What closes a device name.
pub open spec fn name_close() -> Seq<char> {
    "\" "@
}

/// An alias line: it names a device a second time.
pub open spec fn is_alias(line: Seq<char>) -> bool {
    contains(line, alias_marker())
}

/// A line that speaks of an audio device: it carries the log tag and the audio
/// marker and is no alias.
pub open spec fn is_audio_line(line: Seq<char>) -> bool {
    contains(line, log_tag()) && !is_alias(line) && contains(line, audio_marker())
}

/// An audio line holding both delimiters, the opening one first.
pub open spec fn is_device_line(line: Seq<char>) -> bool {
    is_audio_line(line) && first_index(line, name_open()) >= 0 && first_index(line, name_close())
        >= 0 && first_index(line, name_open()) + 2 <= first_index(line, name_close())
}

/// An audio line holding both delimiters, the closing one too early.
pub open spec fn is_malformed(line: Seq<char>) -> bool {
    is_audio_line(line) && first_index(line, name_open()) >= 0 && first_index(line, name_close())
        >= 0 && first_index(line, name_open()) + 2 > first_index(line, name_close())
}

/// The name in a device line: what stands between the delimiters.
pub open spec fn device_name(line: Seq<char>) -> Seq<char> {
    line.subrange(first_index(line, name_open()) + 2, first_index(line, name_close()))
}

/// The devices named by `lines`, in order, or the first malformed line.
pub open spec fn devices_in(lines: Seq<Seq<char>>) -> Result<Seq<Seq<char>>, Seq<char>>
    decreases lines.len(),
{
    if lines.len() == 0 {
        Ok(seq![])
    } else {
        match devices_in(lines.drop_last()) {
            Err(bad) => Err(bad),
            Ok(names) => {
                let line = lines.last();
                if is_malformed(line) {
                    Err(line)
                } else if is_device_line(line) {
                    Ok(names.push(device_name(line)))
                } else {
                    Ok(names)
                }
            },
        }
    }
}

/// The devices that the diagnostic output `text` names.
pub open spec fn device_listing(text: Seq<char>) -> Result<Seq<Seq<char>>, Seq<char>> {
    devices_in(lines_of(text))
}

/// The names of the device lines among `lines`, in order.
pub open spec fn names_of_device_lines(lines: Seq<Seq<char>>) -> Seq<Seq<char>> {
    let pred = |l: Seq<char>| is_device_line(l);
    let name = |l: Seq<char>| device_name(l);
    lines.filter(pred).map_values(name)
}

/// The capture tool's arguments that make it list its DirectShow devices on
/// its diagnostic output, against a throwaway input.
pub fn list_devices_args() -> (r: Vec<String>)
    ensures
        r@.map_values(|a: String| a@) == seq![
            "-hide_banner"@,
            "-list_devices"@,
            "true"@,
            "-f"@,
            "dshow"@,
            "-i"@,
            "dummy"@,
        ],
{
    let mut args: Vec<String> = Vec::new();
    args.push(String::from_str("-hide_banner"));
    args.push(String::from_str("-list_devices"));
    args.push(String::from_str("true"));
    args.push(String::from_str("-f"));
    args.push(String::from_str("dshow"));
    args.push(String::from_str("-i"));
    args.push(String::from_str("dummy"));
    assert(args@.map_values(|a: String| a@) =~= seq![
        "-hide_banner"@,
        "-list_devices"@,
        "true"@,
        "-f"@,
        "dshow"@,
        "-i"@,
        "dummy"@,
    ]);
    args
}

/// Reads the device names out of the capture tool's diagnostic output, in the
/// order the tool gives them. A malformed device line fails the whole call
/// with that line.
pub fn parse_audio_devices(output: &str) -> (r: Result<Vec<String>, Error>)
    ensures
        match device_listing(output@) {
            Ok(names) => r is Ok && r->Ok_0@.map_values(|s: String| s@) == names,
            Err(bad) => r matches Err(Error::ParseFailed(m)) && m@ == bad,
        },
{
    let text = chars_of(output);
    let lines = split_lines(&text);
    let tag = chars_of("dshow @");
    let alias = chars_of("]  Alternative name \"");
    let audio = chars_of(" (audio)");
    let open = chars_of(" \"");
    let close = chars_of("\" ");
    let ghost ls = lines@.map_values(|l: Vec<char>| l@);
    let mut devices: Vec<String> = Vec::new();
    let mut i: usize = 0;
    assert(ls.take(0) =~= seq![]);
    assert(devices@.map_values(|s: String| s@) =~= seq![]);
    while i < lines.len()
        invariant
            i <= lines.len(),
            ls == lines@.map_values(|l: Vec<char>| l@),
            ls == lines_of(text@),
            text@ == output@,
            tag@ == log_tag(),
            alias@ == alias_marker(),
            audio@ == audio_marker(),
            open@ == name_open(),
            close@ == name_close(),
            devices_in(ls.take(i as int)) == Ok::<Seq<Seq<char>>, Seq<char>>(
                devices@.map_values(|s: String| s@),
            ),
        decreases lines.len() - i,
    {
        let line = &lines[i];
        assert(ls.take(i + 1).drop_last() =~= ls.take(i as int));
        assert(ls.take(i + 1).last() == line@);
        if contains_chars(line, &tag) && !contains_chars(line, &alias) && contains_chars(
            line,
            &audio,
        ) {
            match (find(line, &open), find(line, &close)) {
                (Some(s), Some(e)) => {
                    if s > e || e - s < 2 {
                        proof {
                            lemma_error_stays(ls, i + 1);
                            assert(ls.take(ls.len() as int) =~= ls);
                        }
                        return Err(Error::ParseFailed(string_of(line, 0, line.len())));
                    }
                    let name = string_of(line, s + 2, e);
                    let ghost before = devices@.map_values(|s: String| s@);
                    devices.push(name);
                    assert(devices@.map_values(|s: String| s@) =~= before.push(
                        device_name(line@),
                    ));
                },
                _ => {},
            }
        }
        i += 1;
    }
    assert(ls.take(i as int) =~= ls);
    Ok(devices)
}

/// Once some prefix of the lines holds a malformed line, so does every longer
/// one, and the error stays the same.
proof fn lemma_error_stays(lines: Seq<Seq<char>>, k: int)
    requires
        0 <= k <= lines.len(),
        devices_in(lines.take(k)) is Err,
    ensures
        devices_in(lines) == devices_in(lines.take(k)),
    decreases lines.len(),
{
    if k < lines.len() {
        assert(lines.drop_last().take(k) =~= lines.take(k));
        lemma_error_stays(lines.drop_last(), k);
    } else {
        assert(lines.take(k) =~= lines);
    }
}

/// Every error reported for a list of lines is one of its malformed lines.
proof fn lemma_error_is_malformed(lines: Seq<Seq<char>>)
    ensures
        devices_in(lines) matches Err(bad) ==> is_malformed(bad) && lines.contains(bad),
    decreases lines.len(),
{
    if lines.len() > 0 {
        lemma_error_is_malformed(lines.drop_last());
        if devices_in(lines.drop_last()) is Err {
            let bad = devices_in(lines.drop_last())->Err_0;
            let j = choose|j: int| 0 <= j < lines.drop_last().len() && lines.drop_last()[j] == bad;
            assert(lines[j] == bad);
        } else {
            assert(lines[lines.len() - 1] == lines.last());
        }
    }
}

/// Well-formed output lists every device line, and nothing else, in the
/// order of the lines: with no malformed line, the devices are exactly the
/// names of the device lines.
pub proof fn lemma_devices_of_well_formed_lines(lines: Seq<Seq<char>>)
    requires
        forall|i: int| 0 <= i < lines.len() ==> !is_malformed(#[trigger] lines[i]),
    ensures
        devices_in(lines) == Ok::<Seq<Seq<char>>, Seq<char>>(names_of_device_lines(lines)),
    decreases lines.len(),
{
    reveal(Seq::filter);
    if lines.len() > 0 {
        let rest = lines.drop_last();
        assert forall|i: int| 0 <= i < rest.len() implies !is_malformed(#[trigger] rest[i]) by {
            assert(rest[i] == lines[i]);
        }
        lemma_devices_of_well_formed_lines(rest);
        assert(!is_malformed(lines[lines.len() - 1]));
        let pred = |l: Seq<char>| is_device_line(l);
        let name = |l: Seq<char>| device_name(l);
        let kept = rest.filter(pred);
        let line = lines.last();
        assert(lines.filter(pred) == if is_device_line(line) {
            kept.push(line)
        } else {
            kept
        });
        assert(kept.push(line).map_values(name) =~= kept.map_values(name).push(device_name(line)));
        assert(names_of_device_lines(rest) == kept.map_values(name));
        assert(names_of_device_lines(lines) == lines.filter(pred).map_values(name));
    } else {
        assert(names_of_device_lines(lines) =~= seq![]);
    }
}

/// Well-formed diagnostic output yields one device per device line, in the
/// order of the lines.
pub proof fn lemma_well_formed_output_lists_each_device(text: Seq<char>)
    requires
        forall|i: int|
            0 <= i < lines_of(text).len() ==> !is_malformed(#[trigger] lines_of(text)[i]),
    ensures
        device_listing(text) == Ok::<Seq<Seq<char>>, Seq<char>>(
            names_of_device_lines(lines_of(text)),
        ),
{
    lemma_devices_of_well_formed_lines(lines_of(text));
}

/// One malformed device line anywhere fails the whole listing: no partial list
/// comes back, and the error names a malformed line of the output.
pub proof fn lemma_malformed_line_fails_listing(text: Seq<char>, i: int)
    requires
        0 <= i < lines_of(text).len(),
        is_malformed(lines_of(text)[i]),
    ensures
        device_listing(text) matches Err(bad) && is_malformed(bad) && lines_of(text).contains(bad),
{
    let lines = lines_of(text);
    assert(lines.take(i + 1).drop_last() =~= lines.take(i));
    assert(lines.take(i + 1).last() == lines[i]);
    lemma_error_stays(lines, i + 1);
    lemma_error_is_malformed(lines);
}

/// An alias line never changes the listing, wherever it stands: it adds no
/// device and, malformed or not, causes no error.
pub proof fn lemma_alias_line_ignored(lines: Seq<Seq<char>>, k: int, alias: Seq<char>)
    requires
        is_alias(alias),
        0 <= k <= lines.len(),
    ensures
        devices_in(lines.insert(k, alias)) == devices_in(lines),
    decreases lines.len(),
{
    let longer = lines.insert(k, alias);
    if k == lines.len() {
        assert(longer.drop_last() =~= lines);
        assert(longer.last() == alias);
    } else {
        assert(longer.drop_last() =~= lines.drop_last().insert(k, alias));
        assert(longer.last() == lines.last());
        lemma_alias_line_ignored(lines.drop_last(), k, alias);
    }
}

} // verus!
