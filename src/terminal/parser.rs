//! Turning what the escape-sequence state machine recognises into events.
use vstd::prelude::*;

use crate::terminal::event::{decoded_mouse, MouseEvent, TerminalEvent};

verus! {

/// The parameters of a control sequence, each group's sub-parameters in turn.
pub open spec fn flat(groups: Seq<Seq<u16>>) -> Seq<u16>
    decreases groups.len(),
{
    if groups.len() == 0 {
        Seq::empty()
    } else {
        flat(groups.drop_last()) + groups.last()
    }
}

/// The view of each parameter group.
pub open spec fn group_views(params: Seq<Vec<u16>>) -> Seq<Seq<u16>> {
    params.map_values(|g: Vec<u16>| g@)
}

/// The event for a control sequence with final byte `action`, or `None` for
/// a sequence that is not recognised.
///
/// `CSI < b ; x ; y M` and `... m` are SGR mouse reports (fewer than three
/// parameters: not recognised); `CSI I` and `CSI O` report focus gained and
/// lost; `CSI 200 ~` and `CSI 201 ~` start and end a bracketed paste.
pub open spec fn csi_event_spec(params: Seq<Seq<u16>>, intermediates: Seq<u8>, action: char) -> Option<
    TerminalEvent,
> {
    let p = flat(params);
    if (action == 'M' || action == 'm') && intermediates == seq![0x3cu8] {
        if p.len() >= 3 {
            Some(TerminalEvent::Mouse(decoded_mouse(p[0] as nat, p[1] as nat, p[2] as nat, action)))
        } else {
            None
        }
    } else if action == 'I' && intermediates.len() == 0 {
        Some(TerminalEvent::Focus(true))
    } else if action == 'O' && intermediates.len() == 0 {
        Some(TerminalEvent::Focus(false))
    } else if action == '~' && params.len() > 0 && params[0] == seq![200u16] {
        Some(TerminalEvent::BracketedPaste(true))
    } else if action == '~' && params.len() > 0 && params[0] == seq![201u16] {
        Some(TerminalEvent::BracketedPaste(false))
    } else {
        None
    }
}

fn flatten(params: &Vec<Vec<u16>>) -> (r: Vec<u16>)
    ensures
        r@ == flat(group_views(params@)),
{
    let mut r: Vec<u16> = Vec::new();
    let mut i: usize = 0;
    while i < params.len()
        invariant
            i <= params@.len(),
            r@ == flat(group_views(params@).take(i as int)),
        decreases params@.len() - i,
    {
        let group = &params[i];
        let ghost before = r@;
        let mut j: usize = 0;
        while j < group.len()
            invariant
                j <= group@.len(),
                r@ == before + group@.take(j as int),
            decreases group@.len() - j,
        {
            r.push(group[j]);
            j = j + 1;
            assert(r@ =~= before + group@.take(j as int));
        }
        i = i + 1;
        let ghost t = group_views(params@).take(i as int);
        assert(t.drop_last() =~= group_views(params@).take(i - 1));
        assert(group@.take(j as int) =~= group@);
    }
    assert(group_views(params@).take(i as int) =~= group_views(params@));
    r
}

fn is_single(group: &Vec<u16>, value: u16) -> (r: bool)
    ensures
        r == (group@ == seq![value]),
{
    if group.len() == 1 && group[0] == value {
        assert(group@ =~= seq![value]);
        true
    } else {
        false
    }
}

/// The event for a control sequence with parameter groups `params`,
/// intermediate bytes `intermediates` and final byte `action`; `None` when
/// the sequence is not recognised, which discards it.
pub fn csi_event(params: &Vec<Vec<u16>>, intermediates: &Vec<u8>, action: char) -> (r: Option<
    TerminalEvent,
>)
    ensures
        r == csi_event_spec(group_views(params@), intermediates@, action),
{
    if (action == 'M' || action == 'm') && intermediates.len() == 1 && intermediates[0] == 0x3c {
        assert(intermediates@ =~= seq![0x3cu8]);
        let p = flatten(params);
        if p.len() >= 3 {
            Some(TerminalEvent::Mouse(MouseEvent::new(p[0], p[1], p[2], action)))
        } else {
            None
        }
    } else if action == 'I' && intermediates.len() == 0 {
        Some(TerminalEvent::Focus(true))
    } else if action == 'O' && intermediates.len() == 0 {
        Some(TerminalEvent::Focus(false))
    } else if action == '~' && params.len() > 0 && is_single(&params[0], 200) {
        Some(TerminalEvent::BracketedPaste(true))
    } else if action == '~' && params.len() > 0 && is_single(&params[0], 201) {
        Some(TerminalEvent::BracketedPaste(false))
    } else {
        proof {
            if intermediates@ == seq![0x3cu8] {
                assert(intermediates@.len() == 1 && intermediates@[0] == 0x3c);
            }
        }
        None
    }
}

/// The event for a printable character: a keyboard event holding it.
pub fn print_event(c: char) -> (e: TerminalEvent)
    ensures
        e == TerminalEvent::Keyboard(c),
{
    TerminalEvent::Keyboard(c)
}

/// The event for a C0 control byte or DEL: a keyboard event holding that
/// control character, so that the application decides what `Ctrl+letter`
/// means.
pub fn execute_event(byte: u8) -> (e: TerminalEvent)
    ensures
        e == TerminalEvent::Keyboard(byte as char),
{
    TerminalEvent::Keyboard(byte as char)
}

/// Whether a read from the terminal holds nothing but one ESC byte: such a
/// read is the ESC key itself, not the start of a sequence.
pub fn is_lone_escape(bytes: &[u8]) -> (r: bool)
    ensures
        r == (bytes@ == seq![0x1bu8]),
{
    if bytes.len() == 1 && bytes[0] == 0x1b {
        assert(bytes@ =~= seq![0x1bu8]);
        true
    } else {
        false
    }
}

/// A control sequence whose final byte is none of those the layer knows
/// (`M`, `m`, `I`, `O`, `~`) yields no event, whatever its parameters and
/// intermediates.
pub proof fn lemma_unknown_final_discarded(
    params: Seq<Seq<u16>>,
    intermediates: Seq<u8>,
    action: char,
)
    requires
        action != 'M' && action != 'm' && action != 'I' && action != 'O' && action != '~',
    ensures
        csi_event_spec(params, intermediates, action) is None,
{
}

/// A mouse, focus or paste final byte under an intermediate other than the
/// SGR mouse marker `<` yields no event, except for `~`, which carries its
/// meaning in its parameters alone.
pub proof fn lemma_unknown_intermediate_discarded(
    params: Seq<Seq<u16>>,
    intermediates: Seq<u8>,
    action: char,
)
    requires
        intermediates.len() > 0,
        intermediates != seq![0x3cu8],
        action != '~',
    ensures
        csi_event_spec(params, intermediates, action) is None,
{
}

/// An SGR mouse report whose intermediates are not exactly `<`, or that
/// carries fewer than three parameter values, yields no event.
pub proof fn lemma_malformed_mouse_discarded(params: Seq<Seq<u16>>, intermediates: Seq<u8>, action: char)
    requires
        action == 'M' || action == 'm',
        intermediates != seq![0x3cu8] || flat(params).len() < 3,
    ensures
        csi_event_spec(params, intermediates, action) is None,
{
}

/// A `~` sequence starts a bracketed paste exactly for a first parameter
/// group `200`, ends one exactly for `201`, and yields no event otherwise.
pub proof fn lemma_paste_sequences(params: Seq<Seq<u16>>, intermediates: Seq<u8>)
    ensures
        params.len() > 0 && params[0] == seq![200u16] ==> csi_event_spec(params, intermediates, '~')
            == Some(TerminalEvent::BracketedPaste(true)),
        params.len() > 0 && params[0] == seq![201u16] ==> csi_event_spec(params, intermediates, '~')
            == Some(TerminalEvent::BracketedPaste(false)),
        !(params.len() > 0 && (params[0] == seq![200u16] || params[0] == seq![201u16]))
            ==> csi_event_spec(params, intermediates, '~') is None,
{
    if params.len() > 0 && params[0] == seq![200u16] {
        assert(params[0] != seq![201u16]) by {
            assert(params[0][0] == 200);
        }
    }
}

/// Focus reports carry no intermediates: with any, `I` and `O` yield no event.
pub proof fn lemma_focus_needs_no_intermediate(params: Seq<Seq<u16>>, intermediates: Seq<u8>, action: char)
    requires
        action == 'I' || action == 'O',
        intermediates.len() > 0,
    ensures
        csi_event_spec(params, intermediates, action) is None,
{
}

} // verus!
