//! Rendering events as output lines.
//!
//! One event becomes one text line of `;`-separated fields, terminated by a
//! newline: `<id>;<item_size>;<inline_capacity>;<kind>;<field_a>;<field_b>`.
//! The kind is `+` for creation, `-` for destruction and a space for a
//! capacity change; an absent field is an empty string between delimiters, so
//! every line has the same column count.

use vstd::prelude::*;

use crate::event::{ArrayInfo, Id, Message};

verus! {

/// The field separator `;`.
pub const SEP: u8 = 59;

/// The line terminator `\n`.
pub const NEWLINE: u8 = 10;

/// The kind marker `+` of a creation event.
pub const KIND_NEW: u8 = 43;

/// The kind marker `-` of a destruction event.
pub const KIND_DROP: u8 = 45;

/// The kind marker ` ` of a capacity-change event.
pub const KIND_RESIZE: u8 = 32;

/// The decimal digits of `n` as ASCII bytes, most significant digit first.
pub open spec fn dec_digits(n: nat) -> Seq<u8>
    decreases n,
{
    if n < 10 {
        seq![(n + 48) as u8]
    } else {
        dec_digits(n / 10).push(((n % 10) + 48) as u8)
    }
}

/// The digits of an optional field: an absent field renders as nothing.
pub open spec fn opt_digits(o: Option<usize>) -> Seq<u8> {
    match o {
        Some(v) => dec_digits(v as nat),
        None => Seq::empty(),
    }
}

/// The full line for one event: id, item size, inline capacity, kind and the
/// two capacity fields, `;`-separated and newline-terminated.
pub open spec fn line_spec(
    info: ArrayInfo,
    kind: u8,
    previous_cap: Option<usize>,
    new_cap: Option<usize>,
) -> Seq<u8> {
    dec_digits(info.id as nat) + seq![SEP] + dec_digits(info.item_size as nat) + seq![SEP]
        + dec_digits(info.array_size as nat) + seq![SEP] + seq![kind] + seq![SEP]
        + opt_digits(previous_cap) + seq![SEP] + opt_digits(new_cap) + seq![NEWLINE]
}

/// What the logger writes for one message; the quit sentinel writes nothing.
pub open spec fn rendered(m: Message) -> Seq<u8> {
    match m {
        Message::New(info, cap) => line_spec(info, KIND_NEW, None, Some(cap)),
        Message::Resize(info, previous_cap, new_cap) => line_spec(
            info,
            KIND_RESIZE,
            Some(previous_cap),
            Some(new_cap),
        ),
        Message::Drop(info, cap) => line_spec(info, KIND_DROP, Some(cap), None),
        Message::Quit => Seq::empty(),
    }
}

/// Appends the decimal digits of `n` to `out`.
pub fn write_num(n: usize, out: &mut Vec<u8>)
    ensures
        final(out)@ == old(out)@ + dec_digits(n as nat),
    decreases n,
{
    if n >= 10 {
        write_num(n / 10, out);
    }
    out.push((n % 10) as u8 + 48);
    proof {
        assert(out@ =~= old(out)@ + dec_digits(n as nat));
    }
}

/// Appends the id field and its trailing separator to `out`.
pub fn write_id(out: &mut Vec<u8>, id: Id)
    ensures
        final(out)@ == old(out)@ + dec_digits(id as nat) + seq![SEP],
{
    write_num(id, out);
    out.push(SEP);
    proof {
        assert(out@ =~= old(out)@ + dec_digits(id as nat) + seq![SEP]);
    }
}

/// Appends an optional capacity field and the byte that follows it to `out`;
/// an absent field leaves only the following byte.
pub fn write_opt(out: &mut Vec<u8>, o: Option<usize>, after: u8)
    ensures
        final(out)@ == old(out)@ + opt_digits(o) + seq![after],
{
    match o {
        Some(value) => {
            write_num(value, out);
            out.push(after);
        },
        None => {
            out.push(after);
        },
    }
    proof {
        assert(out@ =~= old(out)@ + opt_digits(o) + seq![after]);
    }
}

/// Renders one event as its output line.
pub fn render_line(
    info: ArrayInfo,
    addrem: u8,
    previous_cap: Option<usize>,
    new_cap: Option<usize>,
) -> (r: Vec<u8>)
    ensures
        r@ == line_spec(info, addrem, previous_cap, new_cap),
{
    let mut out: Vec<u8> = Vec::new();
    write_id(&mut out, info.id);
    write_num(info.item_size, &mut out);
    out.push(SEP);
    write_num(info.array_size, &mut out);
    out.push(SEP);
    out.push(addrem);
    out.push(SEP);
    write_opt(&mut out, previous_cap, SEP);
    write_opt(&mut out, new_cap, NEWLINE);
    proof {
        assert(out@ =~= line_spec(info, addrem, previous_cap, new_cap));
    }
    out
}

/// The logger's decision for one received message: the line to append to the
/// output, or `None` when the message is the quit sentinel and the logger
/// must flush and stop.
pub fn handle(m: &Message) -> (r: Option<Vec<u8>>)
    ensures
        match r {
            Some(v) => !(*m is Quit) && v@ == rendered(*m),
            None => *m is Quit,
        },
{
    match m {
        Message::New(info, cap) => Some(render_line(*info, KIND_NEW, None, Some(*cap))),
        Message::Drop(info, cap) => Some(render_line(*info, KIND_DROP, Some(*cap), None)),
        Message::Resize(info, previous_cap, new_cap) => Some(
            render_line(*info, KIND_RESIZE, Some(*previous_cap), Some(*new_cap)),
        ),
        Message::Quit => None,
    }
}

} // verus!
