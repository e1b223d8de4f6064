//! Audio devices, read from what the platform's tools print.
//!
//! Nothing here runs a tool. The caller hands over the text that `pactl` printed, or
//! the names that the audio host listed, and gets the devices back.

use crate::data::{DeviceInfo, DeviceModel};
use crate::text::{
    chars_of, contains, contains_text, has_prefix, lines, lines_of, replace_all, replaced, rows,
    same_text, starts_with, text_of, trim_bounds, trimmed, words, words_of,
};
use vstd::prelude::*;
use vstd::slice::slice_subrange;

verus! {

/// What the platform's tools printed, each as far as it could be run.
pub struct AudioProbe {
    /// The output of `pactl info`.
    pub server_info: Option<String>,
    /// The output of `pactl list sources short`.
    pub sources_short: Option<String>,
    /// The output of `pactl list sources`.
    pub sources_full: Option<String>,
    /// The recording devices that look like a stereo mix, as PowerShell lists them.
    pub stereo_mix: Option<String>,
    /// The names of those devices, one on each line.
    pub stereo_mix_names: Option<String>,
}

/// A source is a monitor when its technical name says so.
pub open spec fn is_monitor_name(name: Seq<char>) -> bool {
    contains_text(name, ".monitor"@) || contains_text(name, "Monitor"@)
}

/// A source is a real input when it is an ALSA input and no monitor of an output.
pub open spec fn is_input_name(name: Seq<char>) -> bool {
    !contains_text(name, ".monitor"@) && has_prefix(name, "alsa_input"@)
}

/// Whether a listing of monitors, or else of inputs, takes the source `name`.
pub open spec fn is_wanted(name: Seq<char>, monitors: bool) -> bool {
    if monitors {
        is_monitor_name(name)
    } else {
        is_input_name(name)
    }
}

/// The description in a `Description:` line: the line without that label, trimmed.
pub open spec fn description_in(line: Seq<char>) -> Seq<char> {
    trimmed(replaced(line, "Description:"@, Seq::<char>::empty()))
}

/// Looks through the lines of a full listing for the description of the source
/// `name`: the first `Description:` line after a line that names the source.
/// `found` says whether such a line was passed already.
pub open spec fn description_after(lines: Seq<Seq<char>>, name: Seq<char>, found: bool) -> Option<
    Seq<char>,
>
    decreases lines.len(),
{
    if lines.len() == 0 {
        None
    } else if contains_text(lines[0], "Name: "@ + name) {
        description_after(lines.drop_first(), name, true)
    } else if found && has_prefix(trimmed(lines[0]), "Description:"@) {
        Some(description_in(lines[0]))
    } else {
        description_after(lines.drop_first(), name, found)
    }
}

/// The name to show for the source `name`: its description in the full listing, or
/// `name` itself where there is no listing or no description.
pub open spec fn description_of(full: Option<Seq<char>>, name: Seq<char>) -> Seq<char> {
    match full {
        Some(text) => match description_after(lines_of(text), name, false) {
            Some(description) => description,
            None => name,
        },
        None => name,
    }
}

/// The devices in the lines of a short listing. The second word of a line is the
/// technical name of a source; the sources that are wanted are numbered from zero in
/// the order of their lines.
pub open spec fn listed_sources(
    lines: Seq<Seq<char>>,
    full: Option<Seq<char>>,
    monitors: bool,
) -> Seq<DeviceModel>
    decreases lines.len(),
{
    if lines.len() == 0 {
        Seq::<DeviceModel>::empty()
    } else {
        let before = listed_sources(lines.drop_last(), full, monitors);
        let fields = words_of(lines.last());
        if fields.len() >= 2 && is_wanted(fields[1], monitors) {
            before.push(
                DeviceModel {
                    id: before.len(),
                    name: description_of(full, fields[1]),
                    technical_name: Some(fields[1]),
                },
            )
        } else {
            before
        }
    }
}

/// The sources of a short listing, where there is one.
pub open spec fn sources_of(
    short: Option<Seq<char>>,
    full: Option<Seq<char>>,
    monitors: bool,
) -> Seq<DeviceModel> {
    match short {
        Some(text) => listed_sources(lines_of(text), full, monitors),
        None => Seq::<DeviceModel>::empty(),
    }
}

/// The view of an optional string slice.
pub open spec fn optional_str(s: Option<&str>) -> Option<Seq<char>> {
    match s {
        Some(t) => Some(t@),
        None => None,
    }
}

/// Borrows an optional string.
pub fn as_optional_str(s: &Option<String>) -> (r: Option<&str>)
    ensures
        optional_str(r) == crate::data::optional_text(*s),
{
    match s {
        Some(t) => Some(t.as_str()),
        None => None,
    }
}

/// Decides [`is_wanted`].
fn wanted(name: &[char], monitors: bool) -> (b: bool)
    ensures
        b == is_wanted(name@, monitors),
{
    let dot_monitor = chars_of(".monitor");
    if monitors {
        let monitor = chars_of("Monitor");
        contains(name, dot_monitor.as_slice()) || contains(name, monitor.as_slice())
    } else {
        let alsa_input = chars_of("alsa_input");
        !contains(name, dot_monitor.as_slice()) && starts_with(name, alsa_input.as_slice())
    }
}

/// Computes [`description_after`] from the start of a full listing.
fn find_description(full_lines: &Vec<Vec<char>>, name: &[char]) -> (r: Option<Vec<char>>)
    ensures
        match description_after(rows(full_lines@), name@, false) {
            Some(d) => r is Some && r->0@ == d,
            None => r is None,
        },
{
    let mut needle = chars_of("Name: ");
    let mut k: usize = 0;
    while k < name.len()
        invariant
            k <= name.len(),
            needle@ == "Name: "@ + name@.subrange(0, k as int),
        decreases name.len() - k,
    {
        needle.push(name[k]);
        k += 1;
        assert(needle@ =~= "Name: "@ + name@.subrange(0, k as int));
    }
    assert(name@.subrange(0, name.len() as int) =~= name@);
    let label = chars_of("Description:");
    let nothing: Vec<char> = Vec::new();
    let ghost all = rows(full_lines@);
    let mut found = false;
    let mut i: usize = 0;
    assert(all.subrange(0, all.len() as int) =~= all);
    while i < full_lines.len()
        invariant
            i <= full_lines.len(),
            all == rows(full_lines@),
            needle@ == "Name: "@ + name@,
            label@ == "Description:"@,
            nothing@ == Seq::<char>::empty(),
            description_after(all, name@, false) == description_after(
                all.subrange(i as int, all.len() as int),
                name@,
                found,
            ),
        decreases full_lines.len() - i,
    {
        let line = &full_lines[i];
        proof {
            let rest = all.subrange(i as int, all.len() as int);
            assert(rest[0] == line@);
            assert(rest.drop_first() =~= all.subrange(i + 1, all.len() as int));
        }
        if contains(line.as_slice(), needle.as_slice()) {
            found = true;
        } else if found {
            let (a, b) = trim_bounds(line, 0, line.len());
            assert(line@.subrange(0, line.len() as int) =~= line@);
            if starts_with(slice_subrange(line.as_slice(), a, b), label.as_slice()) {
                let bare = replace_all(line.as_slice(), label.as_slice(), nothing.as_slice());
                let (c, d) = trim_bounds(&bare, 0, bare.len());
                assert(bare@.subrange(0, bare.len() as int) =~= bare@);
                let mut description: Vec<char> = Vec::new();
                let mut j: usize = c;
                while j < d
                    invariant
                        c <= j <= d <= bare.len(),
                        description@ == bare@.subrange(c as int, j as int),
                    decreases d - j,
                {
                    description.push(bare[j]);
                    j += 1;
                    assert(description@ =~= bare@.subrange(c as int, j as int));
                }
                return Some(description);
            }
        }
        i += 1;
    }
    assert(all.subrange(all.len() as int, all.len() as int) =~= Seq::<Seq<char>>::empty());
    None
}

/// Reads the sources that are wanted out of a short listing: the monitors, or else the
/// real inputs. Each gets its description from the full listing as its name.
pub fn list_sources(short: Option<&str>, full: Option<&str>, monitors: bool) -> (devices: Vec<
    DeviceInfo,
>)
    ensures
        devices.deep_view() == sources_of(optional_str(short), optional_str(full), monitors),
{
    let mut devices: Vec<DeviceInfo> = Vec::new();
    assert(devices.deep_view() =~= Seq::<DeviceModel>::empty());
    let short_text = match short {
        Some(text) => chars_of(text),
        None => {
            return devices;
        },
    };
    let short_lines = lines(short_text.as_slice());
    let full_lines: Option<Vec<Vec<char>>> = match full {
        Some(text) => {
            let full_text = chars_of(text);
            Some(lines(full_text.as_slice()))
        },
        None => None,
    };
    let ghost all = rows(short_lines@);
    let ghost full_model = optional_str(full);
    let mut i: usize = 0;
    assert(all.subrange(0, 0) =~= Seq::<Seq<char>>::empty());
    while i < short_lines.len()
        invariant
            i <= short_lines.len(),
            all == rows(short_lines@),
            full_model == optional_str(full),
            match full_lines {
                Some(l) => full is Some && rows(l@) == lines_of(full->0@),
                None => full is None,
            },
            devices.deep_view() == listed_sources(
                all.subrange(0, i as int),
                full_model,
                monitors,
            ),
        decreases short_lines.len() - i,
    {
        let ghost before = devices.deep_view();
        proof {
            let next = all.subrange(0, i + 1);
            assert(next.drop_last() =~= all.subrange(0, i as int));
            assert(next.last() == short_lines[i as int]@);
        }
        let fields = words(short_lines[i].as_slice());
        if fields.len() >= 2 {
            assert(rows(fields@)[1] == fields[1]@);
            if wanted(fields[1].as_slice(), monitors) {
                let name = match &full_lines {
                    Some(l) => match find_description(l, fields[1].as_slice()) {
                        Some(description) => text_of(description.as_slice()),
                        None => text_of(fields[1].as_slice()),
                    },
                    None => text_of(fields[1].as_slice()),
                };
                let device = DeviceInfo {
                    id: devices.len(),
                    name,
                    technical_name: Some(text_of(fields[1].as_slice())),
                };
                devices.push(device);
                assert(devices.deep_view() =~= before.push(device@));
            }
        }
        i += 1;
    }
    assert(all.subrange(0, all.len() as int) =~= all);
    devices
}

/// The microphones of a Linux system, read from the listings of its sound server.
pub fn get_linux_input_devices(short: Option<&str>, full: Option<&str>) -> (devices: Vec<
    DeviceInfo,
>)
    ensures
        devices.deep_view() == sources_of(optional_str(short), optional_str(full), false),
{
    list_sources(short, full, false)
}

/// Whether the audio host's name of a device marks a monitor of an output.
pub open spec fn is_host_monitor(name: Seq<char>) -> bool {
    contains_text(name, ".monitor"@) || contains_text(name, "Monitor of"@)
}

/// The devices among the names that the audio host listed, numbered from zero in
/// their order. A list of inputs leaves the monitors out.
pub open spec fn host_devices(names: Seq<Seq<char>>, is_input: bool) -> Seq<DeviceModel>
    decreases names.len(),
{
    if names.len() == 0 {
        Seq::<DeviceModel>::empty()
    } else {
        let before = host_devices(names.drop_last(), is_input);
        if is_input && is_host_monitor(names.last()) {
            before
        } else {
            before.push(DeviceModel { id: before.len(), name: names.last(), technical_name: None })
        }
    }
}

/// The devices to offer, on the system `os`.
pub open spec fn available_devices(
    os: Seq<char>,
    is_input: bool,
    names: Seq<Seq<char>>,
    short: Option<Seq<char>>,
    full: Option<Seq<char>>,
) -> Seq<DeviceModel> {
    if is_input && os == "linux"@ {
        sources_of(short, full, false)
    } else {
        host_devices(names, is_input)
    }
}

/// Lists the devices to offer as inputs or as outputs.
///
/// The inputs of a Linux system are read from the listings of its sound server in
/// `probe`. Everywhere else the devices are those that the audio host named, in
/// `names`.
pub fn get_available_devices(
    os: &str,
    is_input: bool,
    names: &Vec<String>,
    probe: &AudioProbe,
) -> (devices: Vec<DeviceInfo>)
    ensures
        devices.deep_view() == available_devices(
            os@,
            is_input,
            names.deep_view(),
            crate::data::optional_text(probe.sources_short),
            crate::data::optional_text(probe.sources_full),
        ),
{
    if is_input && same_text(os, "linux") {
        return get_linux_input_devices(
            as_optional_str(&probe.sources_short),
            as_optional_str(&probe.sources_full),
        );
    }
    let dot_monitor = chars_of(".monitor");
    let monitor_of = chars_of("Monitor of");
    let ghost all = names.deep_view();
    let mut devices: Vec<DeviceInfo> = Vec::new();
    let mut i: usize = 0;
    assert(all.subrange(0, 0) =~= Seq::<Seq<char>>::empty());
    assert(devices.deep_view() =~= Seq::<DeviceModel>::empty());
    while i < names.len()
        invariant
            i <= names.len(),
            all == names.deep_view(),
            dot_monitor@ == ".monitor"@,
            monitor_of@ == "Monitor of"@,
            devices.deep_view() == host_devices(all.subrange(0, i as int), is_input),
        decreases names.len() - i,
    {
        let ghost before = devices.deep_view();
        proof {
            let next = all.subrange(0, i + 1);
            assert(next.drop_last() =~= all.subrange(0, i as int));
            assert(next.last() == names[i as int]@);
        }
        let name = chars_of(names[i].as_str());
        let skip = is_input && (contains(name.as_slice(), dot_monitor.as_slice()) || contains(
            name.as_slice(),
            monitor_of.as_slice(),
        ));
        if !skip {
            let device = DeviceInfo {
                id: devices.len(),
                name: names[i].clone(),
                technical_name: None,
            };
            devices.push(device);
            assert(devices.deep_view() =~= before.push(device@));
        }
        i += 1;
    }
    assert(all.subrange(0, all.len() as int) =~= all);
    devices
}

} // verus!
