//! The table that lists the devices of one class: an index column, a name
//! column, and a mark on the default device.

use vstd::prelude::*;
use vstd::string::StringExecFns;
use vstd::string::StrSliceExecFns;
use vstd::utf8::encode_utf8;
use crate::device::{views, Device, DeviceView};
use crate::text::{decimal_digits, decimal_width, push_decimal};

verus! {

/// The room that the mark of the default device takes in the index column.
pub const MARK_WIDTH: usize = 10;

/// The room that the column separator and the outer spaces take in a line.
pub const SEPARATOR_WIDTH: usize = 6;

/// `count` times the character `fill`.
pub open spec fn filled(fill: char, count: nat) -> Seq<char> {
    Seq::new(count, |i: int| fill)
}

/// `text`, moved to the right end of a column of `width` characters. A text
/// that is wider than the column stays as it is.
pub open spec fn right_aligned(text: Seq<char>, width: nat) -> Seq<char> {
    if text.len() >= width {
        text
    } else {
        filled(' ', (width - text.len()) as nat) + text
    }
}

/// `text`, at the left end of a column of `width` characters. A text that is
/// wider than the column stays as it is.
pub open spec fn left_aligned(text: Seq<char>, width: nat) -> Seq<char> {
    if text.len() >= width {
        text
    } else {
        text + filled(' ', (width - text.len()) as nat)
    }
}

/// One line of the table: the label in the index column, the name in the
/// name column.
pub open spec fn table_line(
    label: Seq<char>,
    name: Seq<char>,
    index_width: nat,
    name_width: nat,
) -> Seq<char> {
    right_aligned(label, index_width) + " -- "@ + left_aligned(name, name_width)
}

/// The most digits that the index of any of `devices` takes.
pub open spec fn widest_index(devices: Seq<DeviceView>) -> nat
    decreases devices.len(),
{
    if devices.len() == 0 {
        0
    } else {
        let before = widest_index(devices.drop_last());
        let here = decimal_digits(devices.last().index as nat).len();
        if here > before {
            here
        } else {
            before
        }
    }
}

/// The most bytes that the name of any of `devices` takes.
pub open spec fn widest_name(devices: Seq<DeviceView>) -> nat
    decreases devices.len(),
{
    if devices.len() == 0 {
        0
    } else {
        let before = widest_name(devices.drop_last());
        let here = encode_utf8(devices.last().name).len();
        if here > before {
            here
        } else {
            before
        }
    }
}

/// The width of the index column: the widest index, and room for the mark.
pub open spec fn index_column(devices: Seq<DeviceView>) -> nat {
    widest_index(devices) + MARK_WIDTH as nat
}

/// The width of the rule under the heading.
pub open spec fn rule_width(devices: Seq<DeviceView>) -> nat {
    index_column(devices) + widest_name(devices) + SEPARATOR_WIDTH as nat
}

/// What stands in the index column for `device`: its index, marked where the
/// device has the default's name.
pub open spec fn row_label(device: DeviceView, default_name: Seq<char>) -> Seq<char> {
    if device.name == default_name {
        "(default) "@ + decimal_digits(device.index as nat)
    } else {
        decimal_digits(device.index as nat)
    }
}

/// The line of the table for `device`.
pub open spec fn device_line(
    devices: Seq<DeviceView>,
    default_name: Seq<char>,
    device: DeviceView,
) -> Seq<char> {
    table_line(
        row_label(device, default_name),
        device.name,
        index_column(devices),
        widest_name(devices),
    )
}

/// The table of `devices`: an empty line, the heading, a rule, and one line
/// for each device in order.
pub open spec fn device_table(devices: Seq<DeviceView>, default_name: Seq<char>) -> Seq<
    Seq<char>,
> {
    seq![
        Seq::<char>::empty(),
        table_line("Index"@, "Name"@, index_column(devices), widest_name(devices)),
        filled('-', rule_width(devices)),
    ] + Seq::new(devices.len(), |i: int| device_line(devices, default_name, devices[i]))
}

/// The texts that a vector of lines holds.
pub open spec fn line_texts(lines: Seq<String>) -> Seq<Seq<char>> {
    Seq::new(lines.len(), |i: int| lines[i]@)
}

/// Appends `count` copies of the one character of `piece` to `out`.
fn push_filled(out: &mut String, piece: &str, count: usize)
    requires
        piece@.len() == 1,
    ensures
        final(out)@ == old(out)@ + filled(piece@[0], count as nat),
{
    let mut done: usize = 0;
    while done < count
        invariant
            done <= count,
            piece@.len() == 1,
            out@ == old(out)@ + filled(piece@[0], done as nat),
        decreases count - done,
    {
        out.append(piece);
        done += 1;
    }
}

/// Appends one line of the table to `lines`.
fn push_line(
    lines: &mut Vec<String>,
    label: &str,
    name: &str,
    index_width: usize,
    name_width: usize,
)
    ensures
        line_texts(final(lines)@) == line_texts(old(lines)@).push(
            table_line(label@, name@, index_width as nat, name_width as nat),
        ),
{
    proof {
        reveal_strlit(" ");
    }
    let mut line: String = String::new();
    let label_len: usize = label.unicode_len();
    if label_len < index_width {
        push_filled(&mut line, " ", index_width - label_len);
    }
    line.append(label);
    line.append(" -- ");
    line.append(name);
    let name_len: usize = name.unicode_len();
    if name_len < name_width {
        push_filled(&mut line, " ", name_width - name_len);
    }
    assert(line@ == table_line(label@, name@, index_width as nat, name_width as nat));
    lines.push(line);
    assert(line_texts(lines@) == line_texts(old(lines)@).push(line@));
}

/// Lays out the table of `devices`, marking those called `default_name`.
pub fn table_of(devices: &Vec<Device>, default_name: &str) -> (lines: Vec<String>)
    requires
        rule_width(views(devices@)) <= usize::MAX,
    ensures
        line_texts(lines@) == device_table(views(devices@), default_name@),
{
    let n: usize = devices.len();
    let ghost all = views(devices@);
    let mut len_idx: usize = 0;
    let mut len_name: usize = 0;
    let mut i: usize = 0;
    while i < n
        invariant
            n == devices.len(),
            i <= n,
            all == views(devices@),
            len_idx == widest_index(all.subrange(0, i as int)),
            len_name == widest_name(all.subrange(0, i as int)),
        decreases n - i,
    {
        proof {
            let upto = all.subrange(0, i + 1);
            assert(upto.drop_last() == all.subrange(0, i as int));
            assert(upto.last() == devices[i as int]@);
        }
        let len: usize = decimal_width(devices[i].index());
        if len > len_idx {
            len_idx = len;
        }
        let len: usize = devices[i].name().as_bytes().len();
        if len > len_name {
            len_name = len;
        }
        i += 1;
    }
    assert(all.subrange(0, n as int) == all);
    len_idx += MARK_WIDTH;
    let sum: usize = len_idx + len_name + SEPARATOR_WIDTH;

    proof {
        reveal_strlit("-");
    }
    let wanted: String = default_name.to_owned();
    let mut lines: Vec<String> = Vec::new();
    lines.push(String::new());
    assert(line_texts(lines@) == seq![Seq::<char>::empty()]);
    push_line(&mut lines, "Index", "Name", len_idx, len_name);
    let ghost headed = line_texts(lines@);
    let mut rule: String = String::new();
    push_filled(&mut rule, "-", sum);
    lines.push(rule);
    assert(line_texts(lines@) == headed.push(rule@));
    let ghost head = seq![
        Seq::<char>::empty(),
        table_line("Index"@, "Name"@, index_column(all), widest_name(all)),
        filled('-', rule_width(all)),
    ];
    assert(line_texts(lines@) == head);
    let mut i: usize = 0;
    while i < n
        invariant
            n == devices.len(),
            i <= n,
            all == views(devices@),
            wanted@ == default_name@,
            len_idx == index_column(all),
            len_name == widest_name(all),
            line_texts(lines@) == head + Seq::new(
                i as nat,
                |j: int| device_line(all, default_name@, all[j]),
            ),
        decreases n - i,
    {
        let ghost before = line_texts(lines@);
        let mut label: String = String::new();
        if devices[i].is_named(&wanted) {
            label.append("(default) ");
        }
        push_decimal(&mut label, devices[i].index());
        assert(label@ == row_label(all[i as int], default_name@));
        push_line(&mut lines, label.as_str(), devices[i].name(), len_idx, len_name);
        assert(line_texts(lines@) == head + Seq::new(
            (i + 1) as nat,
            |j: int| device_line(all, default_name@, all[j]),
        ));
        i += 1;
    }
    lines
}

} // verus!
