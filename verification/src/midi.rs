//! MIDI on both sides: the Control Change message that carries the fade
//! value out, the controller messages that come in, and the choice of the
//! controller's input port among the ports the system offers.

use vstd::prelude::*;
use crate::config::{CROSSFADER_CC, LEFT_BUTTON_CC, MIDI_CC_NUMBER, MIDI_CHANNEL, RIGHT_BUTTON_CC};
use crate::crossfade::{CrossfadeState, Direction, FadeView, Request, StartAction, StepAction,
    apply_all, lemma_retired_worker_never_moves, moved, next_generation, retired, start_action,
    started, step_action, stepped, stopped, target_value, with_value};
use crate::text::{contains_chars, debug_str, debug_string, text_contains};

verus! {

/// The status byte of a Control Change message on the configured channel.
pub open spec fn spec_control_change_status() -> u8 {
    (0xB0u8 | ((MIDI_CHANNEL - 1) as u8)) as u8
}

/// The status byte of an outgoing Control Change message: `0xB0` with the
/// channel (counted from 0) in its low bits.
pub fn control_change_status() -> (status: u8)
    ensures
        status == spec_control_change_status(),
        status == 0xB0,
{
    let status: u8 = 0xB0u8 | (MIDI_CHANNEL - 1);
    assert(0xB0u8 | 0u8 == 0xB0u8) by (bit_vector);
    status
}

/// The three bytes that carry crossfade `value` out: Control Change status,
/// the crossfader's controller number, and the value.
pub fn control_change_message(value: u8) -> (msg: [u8; 3])
    ensures
        msg@ == seq![spec_control_change_status(), MIDI_CC_NUMBER, value],
{
    let msg = [control_change_status(), MIDI_CC_NUMBER, value];
    assert(msg@ =~= seq![spec_control_change_status(), MIDI_CC_NUMBER, value]);
    msg
}

/// What an incoming controller message asks for.
#[derive(Clone, Copy, PartialEq, Eq, Structural, Debug)]
pub enum MidiCommand {
    /// Not a Control Change message, or one for a control without a role.
    Ignore,
    /// The "fade to left" button.
    FadeLeft,
    /// The "fade to right" button.
    FadeRight,
    /// The physical crossfader moved to the value given.
    Crossfader(u8),
}

/// A message of at least three bytes whose status byte is a Control Change
/// (upper four bits `0xB`, any channel).
pub open spec fn is_control_change(msg: Seq<u8>) -> bool {
    msg.len() >= 3 && (msg[0] & 0xF0u8) == 0xB0u8
}

/// The meaning of an incoming message.
pub open spec fn spec_decode_midi_message(msg: Seq<u8>) -> MidiCommand {
    if !is_control_change(msg) {
        MidiCommand::Ignore
    } else if msg[1] == LEFT_BUTTON_CC {
        MidiCommand::FadeLeft
    } else if msg[1] == RIGHT_BUTTON_CC {
        MidiCommand::FadeRight
    } else if msg[1] == CROSSFADER_CC {
        MidiCommand::Crossfader(msg[2])
    } else {
        MidiCommand::Ignore
    }
}

/// Reads an incoming controller message.
pub fn decode_midi_message(message: &[u8]) -> (cmd: MidiCommand)
    ensures
        cmd == spec_decode_midi_message(message@),
{
    if message.len() < 3 || message[0] & 0xF0 != 0xB0 {
        return MidiCommand::Ignore;
    }
    let control = message[1];
    let value = message[2];
    if control == LEFT_BUTTON_CC {
        MidiCommand::FadeLeft
    } else if control == RIGHT_BUTTON_CC {
        MidiCommand::FadeRight
    } else if control == CROSSFADER_CC {
        MidiCommand::Crossfader(value)
    } else {
        MidiCommand::Ignore
    }
}

/// The state after the controller's message `cmd` has been handled: a
/// manual crossfader move adopts the new value and stops any fade.
pub open spec fn after_midi_command(m: FadeView, cmd: MidiCommand) -> FadeView {
    match cmd {
        MidiCommand::Crossfader(v) => stopped(with_value(m, v)),
        _ => m,
    }
}

/// Handles an incoming controller message. A crossfader move takes its value
/// as the new position and stops a running fade; the fade buttons are
/// returned for the caller to start the fade (see [`CrossfadeState::start`]);
/// anything else changes nothing.
pub fn handle_midi_message(state: &mut CrossfadeState, message: &[u8]) -> (cmd: MidiCommand)
    ensures
        cmd == spec_decode_midi_message(message@),
        final(state)@ == after_midi_command(old(state)@, cmd),
{
    let cmd = decode_midi_message(message);
    if let MidiCommand::Crossfader(v) = cmd {
        state.set_value(v);
        state.stop();
    }
    cmd
}

/// Moving the physical crossfader aborts a running fade and adopts its
/// position: afterwards nothing runs and the value is the crossfader's; the
/// worker of the fade that was running (the one holding the token current
/// before the move) never moves the value again, whatever requests follow
/// (new fade requests included, for fewer than 2^64 launches); and the next
/// fade request launches a fade, under a new token, that starts from that
/// value.
pub proof fn lemma_manual_move_adopts_position(m: FadeView, v: u8, d: Direction, rs: Seq<Request>)
    requires
        m.generation + rs.len() <= u64::MAX,
    ensures
        ({
            let s = after_midi_command(m, MidiCommand::Crossfader(v));
            &&& !s.running
            &&& s.value == v
            &&& retired(s, m.generation)
            &&& forall|i: int|
                0 <= i <= rs.len() ==> step_action(#[trigger] apply_all(s, rs.take(i)), m.generation)
                    == StepAction::Interrupted && stepped(apply_all(s, rs.take(i)), m.generation)
                    == apply_all(s, rs.take(i))
            &&& start_action(s, d) == StartAction::Launch(next_generation(m.generation))
            &&& started(s, d).value == v
            &&& (v != target_value(d) && (d == Direction::Right ==> v <= 127) ==> step_action(
                started(s, d),
                started(s, d).generation,
            ) == StepAction::Send(moved(v, d, 1), d))
        }),
{
    let s = after_midi_command(m, MidiCommand::Crossfader(v));
    lemma_retired_worker_never_moves(s, m.generation, rs);
}

/// A status byte is a Control Change (on any channel) exactly when it lies
/// between `0xB0` and `0xBF`.
pub proof fn lemma_control_change_status_range(b: u8)
    ensures
        ((b & 0xF0u8) == 0xB0u8) <==> (0xB0u8 <= b && b <= 0xBFu8),
{
    assert(((b & 0xF0u8) == 0xB0u8) <==> (0xB0u8 <= b && b <= 0xBFu8)) by (bit_vector);
}

/// How an incoming message is read, in terms of its bytes: a message of at
/// least three bytes whose status byte lies between `0xB0` and `0xBF` (a
/// Control Change on any channel) means fade left for control 87, fade right
/// for control 15, and a crossfader move to the third byte for control 10,
/// whatever the third byte is for the buttons (pressing and releasing a
/// button give the same command); any other message means nothing. Bytes
/// after the third do not matter.
pub proof fn lemma_decode_by_bytes(msg: Seq<u8>, other: Seq<u8>)
    ensures
        (msg.len() >= 3 && 0xB0 <= msg[0] <= 0xBF) ==> {
            &&& msg[1] == 87 ==> spec_decode_midi_message(msg) == MidiCommand::FadeLeft
            &&& msg[1] == 15 ==> spec_decode_midi_message(msg) == MidiCommand::FadeRight
            &&& msg[1] == 10 ==> spec_decode_midi_message(msg) == MidiCommand::Crossfader(msg[2])
            &&& (msg[1] != 87 && msg[1] != 15 && msg[1] != 10) ==> spec_decode_midi_message(msg)
                == MidiCommand::Ignore
        },
        (msg.len() < 3 || msg[0] < 0xB0 || msg[0] > 0xBF) ==> spec_decode_midi_message(msg)
            == MidiCommand::Ignore,
        (msg.len() >= 3 && other.len() >= 3 && msg[0] == other[0] && msg[1] == other[1] && (
        msg[1] == 87 || msg[1] == 15)) ==> spec_decode_midi_message(msg)
            == spec_decode_midi_message(other),
        msg.len() >= 3 ==> spec_decode_midi_message(msg) == spec_decode_midi_message(
            msg.subrange(0, 3),
        ),
{
    if msg.len() >= 1 {
        lemma_control_change_status_range(msg[0]);
    }
    if other.len() >= 1 {
        lemma_control_change_status_range(other[0]);
    }
}

/// What handling a message does to the state, by command: the fade buttons
/// and ignored messages change nothing (the caller starts the fade); a
/// crossfader move sets the value to the crossfader's, stops the fade (it
/// no longer runs, and its worker is told to end) and keeps the direction,
/// duration and token.
pub proof fn lemma_handle_by_command(m: FadeView, v: u8)
    ensures
        after_midi_command(m, MidiCommand::FadeLeft) == m,
        after_midi_command(m, MidiCommand::FadeRight) == m,
        after_midi_command(m, MidiCommand::Ignore) == m,
        after_midi_command(m, MidiCommand::Crossfader(v)).value == v,
        !after_midi_command(m, MidiCommand::Crossfader(v)).running,
        after_midi_command(m, MidiCommand::Crossfader(v)).interrupt,
        after_midi_command(m, MidiCommand::Crossfader(v)).direction == m.direction,
        after_midi_command(m, MidiCommand::Crossfader(v)).duration_index == m.duration_index,
        after_midi_command(m, MidiCommand::Crossfader(v)).generation == m.generation,
{
}

/// Messages other than Control Change, and Control Change messages for
/// controls without a role, leave the state unchanged.
pub proof fn lemma_other_messages_change_nothing(m: FadeView, msg: Seq<u8>)
    requires
        !is_control_change(msg) || (msg[1] != LEFT_BUTTON_CC && msg[1] != RIGHT_BUTTON_CC
            && msg[1] != CROSSFADER_CC),
    ensures
        spec_decode_midi_message(msg) == MidiCommand::Ignore,
        after_midi_command(m, spec_decode_midi_message(msg)) == m,
{
}

} // verus!

verus! {

/// The names of the offered ports as character sequences; a port whose name
/// could not be read has none.
pub open spec fn name_views(names: Seq<Option<String>>) -> Seq<Option<Seq<char>>> {
    names.map_values(|o: Option<String>| match o {
        Some(s) => Some(s@),
        None => None,
    })
}

/// The readable names among `names`, in order.
pub open spec fn known_names(names: Seq<Option<Seq<char>>>) -> Seq<Seq<char>>
    decreases names.len(),
{
    if names.len() == 0 {
        seq![]
    } else {
        let rest = known_names(names.drop_last());
        match names.last() {
            Some(n) => rest.push(n),
            None => rest,
        }
    }
}

/// The port named `name` is the one wanted: its name is readable and
/// contains `needle`.
pub open spec fn name_matches(name: Option<Seq<char>>, needle: Seq<char>) -> bool {
    match name {
        Some(n) => contains_chars(n, needle),
        None => false,
    }
}

/// The debug rendering of the list `items`, without the brackets.
pub open spec fn debug_items(items: Seq<Seq<char>>) -> Seq<char>
    decreases items.len(),
{
    if items.len() == 0 {
        seq![]
    } else if items.len() == 1 {
        debug_str(items[0])
    } else {
        debug_items(items.drop_last()) + ", "@ + debug_str(items.last())
    }
}

/// What `{:?}` makes of a list of names: `[` the names in debug form
/// separated by `, ` `]`.
pub open spec fn debug_list(items: Seq<Seq<char>>) -> Seq<char> {
    "["@ + debug_items(items) + "]"@
}

/// The message that reports a missing input port.
pub open spec fn spec_port_not_found_message(wanted: Seq<char>, available: Seq<Seq<char>>) -> Seq<
    char,
> {
    if wanted.len() == 0 {
        "No MIDI input port name configured. Available input ports: "@ + debug_list(available)
    } else {
        "MIDI input port containing '"@ + wanted + "' not found. Available input ports: "@
            + debug_list(available)
    }
}

/// Whether the port named `name` is the one wanted: a readable name that
/// contains `needle`.
pub fn port_name_contains(name: &Option<String>, needle: &str) -> (r: bool)
    ensures
        r == name_matches(
            match name {
                Some(s) => Some(s@),
                None => None,
            },
            needle@,
        ),
{
    match name {
        Some(n) => text_contains(n.as_str(), needle),
        None => false,
    }
}

/// The readable names among the offered ports, in order.
pub fn port_names(names: &[Option<String>]) -> (r: Vec<String>)
    ensures
        r@.map_values(|s: String| s@) == known_names(name_views(names@)),
{
    let mut r: Vec<String> = Vec::new();
    let n = names.len();
    for i in 0..n
        invariant
            n == names@.len(),
            r@.map_values(|s: String| s@) == known_names(name_views(names@).take(i as int)),
    {
        let ghost views = name_views(names@);
        assert(views.take(i + 1).drop_last() =~= views.take(i as int));
        match &names[i] {
            Some(s) => {
                r.push(s.clone());
            },
            None => {},
        }
        assert(r@.map_values(|s: String| s@) =~= known_names(views.take(i + 1)));
    }
    assert(name_views(names@).take(n as int) =~= name_views(names@));
    r
}

fn append_debug_list(msg: &mut String, available: &[String])
    ensures
        final(msg)@ == old(msg)@ + debug_list(available@.map_values(|s: String| s@)),
{
    let ghost head = msg@;
    let ghost items = available@.map_values(|s: String| s@);
    msg.append("[");
    let n = available.len();
    for i in 0..n
        invariant
            n == available@.len(),
            items == available@.map_values(|s: String| s@),
            msg@ == head + "["@ + debug_items(items.take(i as int)),
    {
        if i > 0 {
            msg.append(", ");
        }
        let d = debug_string(available[i].as_str());
        msg.append(d.as_str());
        assert(items.take(i + 1).drop_last() =~= items.take(i as int));
        assert(msg@ =~= head + "["@ + debug_items(items.take(i + 1)));
    }
    msg.append("]");
    assert(items.take(n as int) =~= items);
}

/// The message that reports that no input port matched `wanted`, listing
/// the `available` names.
pub fn port_not_found_message(wanted: &str, available: &[String]) -> (msg: String)
    ensures
        msg@ == spec_port_not_found_message(wanted@, available@.map_values(|s: String| s@)),
{
    let mut msg = if wanted.unicode_len() == 0 {
        String::from_str("No MIDI input port name configured. Available input ports: ")
    } else {
        let mut m = String::from_str("MIDI input port containing '");
        m.append(wanted);
        m.append("' not found. Available input ports: ");
        m
    };
    append_debug_list(&mut msg, available);
    msg
}

/// The message that reports a missing output port.
pub open spec fn spec_output_port_not_found_message(
    wanted: Seq<char>,
    available: Seq<Seq<char>>,
) -> Seq<char> {
    if wanted.len() == 0 {
        "No MIDI output port name configured. Available output ports: "@ + debug_list(available)
    } else {
        "MIDI output port containing '"@ + wanted + "' not found. Available output ports: "@
            + debug_list(available)
    }
}

/// The message that reports that no output port matched `wanted`, listing
/// the `available` names.
pub fn output_port_not_found_message(wanted: &str, available: &[String]) -> (msg: String)
    ensures
        msg@ == spec_output_port_not_found_message(
            wanted@,
            available@.map_values(|s: String| s@),
        ),
{
    let mut msg = if wanted.unicode_len() == 0 {
        String::from_str("No MIDI output port name configured. Available output ports: ")
    } else {
        let mut m = String::from_str("MIDI output port containing '");
        m.append(wanted);
        m.append("' not found. Available output ports: ");
        m
    };
    append_debug_list(&mut msg, available);
    msg
}

/// The position of the first port whose readable name contains `needle`.
fn first_matching_port(port_names: &[Option<String>], needle: &str) -> (r: Option<usize>)
    ensures
        match r {
            Some(i) => {
                &&& i < port_names@.len()
                &&& name_matches(name_views(port_names@)[i as int], needle@)
                &&& forall|j: int|
                    0 <= j < i ==> !name_matches(#[trigger] name_views(port_names@)[j], needle@)
            },
            None => forall|j: int|
                0 <= j < port_names@.len() ==> !name_matches(
                    #[trigger] name_views(port_names@)[j],
                    needle@,
                ),
        },
{
    let n = port_names.len();
    for i in 0..n
        invariant
            n == port_names@.len(),
            forall|j: int|
                0 <= j < i ==> !name_matches(#[trigger] name_views(port_names@)[j], needle@),
    {
        if port_name_contains(&port_names[i], needle) {
            return Some(i);
        }
    }
    None
}

} // verus!

verus! {

/// The answer to a search for a port named like `needle` among `names`:
/// `Ok` with the position of the first port whose readable name contains a
/// non-empty `needle`.
pub open spec fn port_found_at(names: Seq<Option<String>>, needle: Seq<char>, i: int) -> bool {
    &&& needle.len() > 0
    &&& 0 <= i < names.len()
    &&& name_matches(name_views(names)[i], needle)
    &&& forall|j: int| 0 <= j < i ==> !name_matches(#[trigger] name_views(names)[j], needle)
}

/// No port can be picked: no name is configured, or no readable name contains
/// it.
pub open spec fn no_port_found(names: Seq<Option<String>>, needle: Seq<char>) -> bool {
    needle.len() == 0 || forall|j: int|
        0 <= j < names.len() ==> !name_matches(#[trigger] name_views(names)[j], needle)
}

/// Picks the controller's input port: the first offered port whose readable
/// name contains `name_contains`, by its position among `port_names`. Where
/// no name is configured (`name_contains` is empty) or no port matches, the
/// result is the message that says so and lists the readable names.
pub fn find_input_port(port_names: &[Option<String>], name_contains: &str) -> (r: Result<
    usize,
    String,
>)
    ensures
        match r {
            Ok(i) => port_found_at(port_names@, name_contains@, i as int),
            Err(msg) => {
                &&& no_port_found(port_names@, name_contains@)
                &&& msg@ == spec_port_not_found_message(
                    name_contains@,
                    known_names(name_views(port_names@)),
                )
            },
        },
{
    if name_contains.unicode_len() > 0 {
        if let Some(i) = first_matching_port(port_names, name_contains) {
            return Ok(i);
        }
    }
    let available = self::port_names(port_names);
    Err(port_not_found_message(name_contains, available.as_slice()))
}

/// Picks the output port: the first offered port whose readable name
/// contains `name_contains`, by its position among `port_names`. Where no
/// name is configured (`name_contains` is empty) or no port matches, the
/// result is the message that says so and lists the readable names.
pub fn find_output_port(port_names: &[Option<String>], name_contains: &str) -> (r: Result<
    usize,
    String,
>)
    ensures
        match r {
            Ok(i) => port_found_at(port_names@, name_contains@, i as int),
            Err(msg) => {
                &&& no_port_found(port_names@, name_contains@)
                &&& msg@ == spec_output_port_not_found_message(
                    name_contains@,
                    known_names(name_views(port_names@)),
                )
            },
        },
{
    if name_contains.unicode_len() > 0 {
        if let Some(i) = first_matching_port(port_names, name_contains) {
            return Ok(i);
        }
    }
    let available = self::port_names(port_names);
    Err(output_port_not_found_message(name_contains, available.as_slice()))
}

proof fn lemma_known_names_concat(a: Seq<Option<Seq<char>>>, b: Seq<Option<Seq<char>>>)
    ensures
        known_names(a + b) == known_names(a) + known_names(b),
    decreases b.len(),
{
    if b.len() == 0 {
        assert(a + b =~= a);
        assert(known_names(a) + known_names(b) =~= known_names(a));
    } else {
        lemma_known_names_concat(a, b.drop_last());
        assert((a + b).drop_last() =~= a + b.drop_last());
        assert((a + b).last() == b.last());
        match b.last() {
            Some(n) => {
                assert(known_names(a) + known_names(b.drop_last()).push(n) =~= (known_names(a)
                    + known_names(b.drop_last())).push(n));
            },
            None => {},
        }
    }
}

/// The readable names keep their order and drop the unreadable ones: the
/// names of two lists put together are the names of the first followed by
/// those of the second; a readable name gives itself, an unreadable one
/// nothing.
pub proof fn lemma_known_names_laws(
    a: Seq<Option<Seq<char>>>,
    b: Seq<Option<Seq<char>>>,
    n: Seq<char>,
)
    ensures
        known_names(a + b) == known_names(a) + known_names(b),
        known_names(seq![Some(n)]) == seq![n],
        known_names(seq![None::<Seq<char>>]) == Seq::<Seq<char>>::empty(),
        known_names(a).len() <= a.len(),
    decreases a.len(),
{
    lemma_known_names_concat(a, b);
    let e = Seq::<Option<Seq<char>>>::empty();
    assert(known_names(e) =~= Seq::<Seq<char>>::empty());
    assert(seq![Some(n)].drop_last() =~= e);
    assert(seq![None::<Seq<char>>].drop_last() =~= e);
    assert(known_names(seq![Some(n)]) =~= known_names(e).push(n));
    assert(known_names(e).push(n) =~= seq![n]);
    assert(known_names(seq![None::<Seq<char>>]) =~= known_names(e));
    if a.len() > 0 {
        lemma_known_names_laws(a.drop_last(), b, n);
    }
}

/// The debug list of names: `[]` when empty, the names in debug form
/// between brackets, separated by `, `.
pub proof fn lemma_debug_list_form(x: Seq<char>, y: Seq<char>)
    ensures
        debug_list(Seq::<Seq<char>>::empty()) == "["@ + "]"@,
        debug_list(seq![x]) == "["@ + debug_str(x) + "]"@,
        debug_list(seq![x, y]) == "["@ + debug_str(x) + ", "@ + debug_str(y) + "]"@,
{
    assert(debug_items(Seq::<Seq<char>>::empty()) =~= Seq::<char>::empty());
    assert("["@ + Seq::<char>::empty() + "]"@ =~= "["@ + "]"@);
    let two = seq![x, y];
    assert(two.drop_last() =~= seq![x]);
    assert(two.last() == y);
    assert(debug_items(seq![x]) == debug_str(x));
    assert(debug_items(two) == debug_items(seq![x]) + ", "@ + debug_str(y));
    assert("["@ + (debug_str(x) + ", "@ + debug_str(y)) + "]"@ =~= "["@ + debug_str(x) + ", "@
        + debug_str(y) + "]"@);
}

/// The port search, in terms of what it is given: with no name configured
/// nothing is picked; the answer is the first port whose readable name
/// contains the wanted text (any such first port is the answer, and no
/// earlier port matches the answer); at most one position answers a search;
/// when some readable name contains a non-empty wanted text, a position does
/// answer it; a name containing the wanted text matches, and neither an
/// unreadable name nor one shorter than the wanted text does.
pub proof fn lemma_port_search(
    names: Seq<Option<String>>,
    needle: Seq<char>,
    pre: Seq<char>,
    post: Seq<char>,
)
    ensures
        no_port_found(names, Seq::<char>::empty()),
        forall|i: int, j: int|
            port_found_at(names, needle, i) && port_found_at(names, needle, j) ==> i == j,
        needle.len() > 0 && !no_port_found(names, needle) ==> exists|i: int|
            port_found_at(names, needle, i),
        name_matches(Some(pre + needle + post), needle),
        !name_matches(None, needle),
        forall|n: Seq<char>| n.len() < needle.len() ==> !name_matches(Some(n), needle),
        forall|k: int|
            #![trigger port_found_at(names, needle, k)]
            needle.len() > 0 && 0 <= k < names.len() && name_matches(name_views(names)[k], needle)
                && (forall|j: int|
                0 <= j < k ==> !name_matches(#[trigger] name_views(names)[j], needle))
                ==> port_found_at(names, needle, k),
        forall|k: int, j: int|
            #![trigger port_found_at(names, needle, k), name_views(names)[j]]
            port_found_at(names, needle, k) && 0 <= j < k ==> !name_matches(
                name_views(names)[j],
                needle,
            ),
        forall|k: int|
            port_found_at(names, needle, k) ==> needle.len() > 0 && 0 <= k < names.len()
                && name_matches(#[trigger] name_views(names)[k], needle),
{
    assert forall|n: Seq<char>| n.len() < needle.len() implies !name_matches(Some(n), needle) by {
        crate::text::lemma_contains_laws(pre, n, post, needle);
    }
    crate::text::lemma_contains_laws(pre, needle, post, needle);
    assert forall|i: int, j: int|
        port_found_at(names, needle, i) && port_found_at(names, needle, j) implies i == j by {
        if i < j {
            assert(!name_matches(name_views(names)[i], needle));
        } else if j < i {
            assert(!name_matches(name_views(names)[j], needle));
        }
    }
    if needle.len() > 0 && !no_port_found(names, needle) {
        let k = choose|k: int|
            0 <= k < names.len() && name_matches(#[trigger] name_views(names)[k], needle);
        lemma_first_match(names, needle, k);
    }
}

proof fn lemma_first_match(names: Seq<Option<String>>, needle: Seq<char>, k: int)
    requires
        needle.len() > 0,
        0 <= k < names.len(),
        name_matches(name_views(names)[k], needle),
    ensures
        exists|i: int| port_found_at(names, needle, i),
    decreases k,
{
    if forall|j: int| 0 <= j < k ==> !name_matches(#[trigger] name_views(names)[j], needle) {
        assert(port_found_at(names, needle, k));
    } else {
        let j = choose|j: int| 0 <= j < k && name_matches(#[trigger] name_views(names)[j], needle);
        lemma_first_match(names, needle, j);
    }
}

/// The outgoing status byte is `0xB0`: Control Change on channel 1.
pub proof fn lemma_outgoing_status()
    ensures
        spec_control_change_status() == 0xB0u8,
{
    assert(0xB0u8 | 0u8 == 0xB0u8) by (bit_vector);
}

} // verus!
