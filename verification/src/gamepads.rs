//! The supported controller families and the advertised-name filter that
//! recognises them.

use crate::report::REPORT_LEN;
use crate::xboxone::{GamepadXboxOne, Snapshot};
use vstd::prelude::*;
use vstd::string::StrSliceExecFns;

verus! {

/// Number of advertised names in the allow-list.
pub const GAMEPAD_COMPATIBLE_LEN: usize = 1;

/// The controller families this driver can decode.
#[derive(Debug, Clone, Copy, PartialEq, Eq, Structural)]
pub enum GamepadType {
    XboxOne,
}

/// The decoder state of the connected controller, one variant per family.
#[derive(Debug, Clone, Copy, PartialEq, Eq)]
pub enum GamepadHandler {
    XboxOne(GamepadXboxOne),
}

impl View for GamepadHandler {
    type V = Snapshot;

    /// The decoded state, as plain values.
    open spec fn view(&self) -> Snapshot {
        match self {
            GamepadHandler::XboxOne(pad) => pad@,
        }
    }
}

impl GamepadHandler {
    /// The family whose decoder this is.
    pub open spec fn family(self) -> GamepadType {
        match self {
            GamepadHandler::XboxOne(_) => GamepadType::XboxOne,
        }
    }

    /// A decoder for `gamepad_type` with nothing decoded yet.
    pub fn new(gamepad_type: GamepadType) -> (handler: Self)
        ensures
            handler.family() == gamepad_type,
            handler@ == Snapshot::initial(),
    {
        match gamepad_type {
            GamepadType::XboxOne => GamepadHandler::XboxOne(GamepadXboxOne::new()),
        }
    }

    /// The family whose decoder this is.
    pub fn gamepad_type(&self) -> (family: GamepadType)
        ensures
            family == self.family(),
    {
        match self {
            GamepadHandler::XboxOne(_) => GamepadType::XboxOne,
        }
    }

    /// A copy of the decoded state as it stands.
    pub fn snapshot(&self) -> (pad: GamepadXboxOne)
        ensures
            pad@ == self@,
    {
        match self {
            GamepadHandler::XboxOne(pad) => *pad,
        }
    }

    /// Hands one notification of the report characteristic to the family's
    /// decoder. Returns whether the report carried every field group.
    pub fn on_notify(&mut self, raw_data: &[u8]) -> (complete: bool)
        ensures
            final(self).family() == old(self).family(),
            final(self)@ == old(self)@.notified(raw_data@),
            complete == (raw_data@.len() >= REPORT_LEN),
    {
        match self {
            GamepadHandler::XboxOne(pad) => pad.on_notify(raw_data),
        }
    }
}

/// What a controller family's decoder state takes in: the raw bytes of each
/// kind of reading, stored as decoded values.
pub trait GamepadPacketHandler {
    /// Takes in the buttons of an input report.
    fn set_buttons(&mut self, raw_data: &[u8]);

    /// Takes in the stick positions of an input report.
    fn set_sticks(&mut self, raw_data: &[u8]);

    /// Takes in the trigger magnitudes of an input report.
    fn set_trigger(&mut self, raw_data: &[u8]);

    /// Takes in a battery level.
    fn set_battery(&mut self, raw_data: &[u8]);
}

/// The advertised names of the supported controllers. A controller is added by
/// adding its name here and in `compatible_name`.
pub open spec fn compatible_names() -> Seq<Seq<char>> {
    seq!["XBOX WIRELESS CONTROLLER"@]
}

/// The code point of `c` with the ASCII capital letters mapped onto the small
/// ones.
pub open spec fn fold_case(c: char) -> int {
    if 'A' <= c && c <= 'Z' {
        c as int + 32
    } else {
        c as int
    }
}

/// The case-folded code points of `s`, in order.
pub open spec fn folded(s: Seq<char>) -> Seq<int> {
    Seq::new(s.len(), |i: int| fold_case(s[i]))
}

/// `needle` stands in `hay` at offset `at`.
pub open spec fn occurs_at(hay: Seq<int>, needle: Seq<int>, at: int) -> bool {
    &&& 0 <= at
    &&& at + needle.len() <= hay.len()
    &&& hay.subrange(at, at + needle.len()) == needle
}

/// `needle` is a substring of `hay` when letter case is ignored.
pub open spec fn contains_ignoring_case(hay: Seq<char>, needle: Seq<char>) -> bool {
    exists|at: int| occurs_at(folded(hay), folded(needle), at)
}

/// A device that advertises `name` is a supported controller: some allow-listed
/// name is a substring of it, letter case ignored.
pub open spec fn is_supported(name: Seq<char>) -> bool {
    exists|k: int|
        0 <= k < compatible_names().len() && contains_ignoring_case(
            name,
            #[trigger] compatible_names()[k],
        )
}

/// The family that a device advertising `name` belongs to, if the name tells.
pub open spec fn family_of(name: Seq<char>) -> Option<GamepadType> {
    if contains_ignoring_case(name, "xbox"@) {
        Some(GamepadType::XboxOne)
    } else {
        None
    }
}

/// The `k`-th allow-listed name.
pub fn compatible_name(k: usize) -> (name: &'static str)
    requires
        k < GAMEPAD_COMPATIBLE_LEN,
    ensures
        name@ == compatible_names()[k as int],
{
    "XBOX WIRELESS CONTROLLER"
}

fn fold_char(c: char) -> (code: u32)
    ensures
        code as int == fold_case(c),
{
    let code: u32 = c as u32;
    if 'A' <= c && c <= 'Z' {
        code + 32
    } else {
        code
    }
}

fn fold_str(s: &str) -> (codes: Vec<u32>)
    ensures
        codes@.len() == s@.len(),
        forall|i: int| 0 <= i < s@.len() ==> #[trigger] codes@[i] as int == fold_case(s@[i]),
{
    let n: usize = s.unicode_len();
    let mut codes: Vec<u32> = Vec::new();
    let mut i: usize = 0;
    while i < n
        invariant
            n == s@.len(),
            i <= n,
            codes@.len() == i,
            forall|j: int| 0 <= j < i ==> #[trigger] codes@[j] as int == fold_case(s@[j]),
        decreases n - i,
    {
        codes.push(fold_char(s.get_char(i)));
        i += 1;
    }
    codes
}

/// The integers that a vector of code points stands for.
spec fn codes_of(v: Seq<u32>) -> Seq<int> {
    Seq::new(v.len(), |i: int| v[i] as int)
}

fn occurs_here(hay: &Vec<u32>, needle: &Vec<u32>, at: usize) -> (hit: bool)
    requires
        at + needle@.len() <= hay@.len(),
    ensures
        hit == occurs_at(codes_of(hay@), codes_of(needle@), at as int),
{
    let n: usize = hay.len();
    let m: usize = needle.len();
    let mut j: usize = 0;
    while j < m
        invariant
            m == needle@.len(),
            j <= m,
            n == hay@.len(),
            at + m <= n,
            forall|k: int| 0 <= k < j ==> hay@[at + k] == #[trigger] needle@[k],
        decreases m - j,
    {
        if hay[at + j] != needle[j] {
            proof {
                let window = codes_of(hay@).subrange(at as int, at + m);
                assert(window[j as int] != codes_of(needle@)[j as int]);
            }
            return false;
        }
        j += 1;
    }
    proof {
        assert(codes_of(hay@).subrange(at as int, at + m) =~= codes_of(needle@));
    }
    true
}

/// Tells whether `needle` is a substring of `hay`, letter case ignored.
pub fn contains_ignore_case(hay: &str, needle: &str) -> (found: bool)
    ensures
        found == contains_ignoring_case(hay@, needle@),
{
    let h = fold_str(hay);
    let n = fold_str(needle);
    proof {
        assert(codes_of(h@) =~= folded(hay@));
        assert(codes_of(n@) =~= folded(needle@));
    }
    if n.len() > h.len() {
        return false;
    }
    let last: usize = h.len() - n.len();
    let mut at: usize = 0;
    loop
        invariant
            last + n@.len() == h@.len(),
            at <= last,
            codes_of(h@) == folded(hay@),
            codes_of(n@) == folded(needle@),
            forall|k: int| 0 <= k < at ==> !occurs_at(folded(hay@), folded(needle@), k),
        decreases last - at,
    {
        if occurs_here(&h, &n, at) {
            return true;
        }
        if at == last {
            return false;
        }
        at += 1;
    }
}

/// Decides whether a device that advertises `device_name` is a supported
/// controller.
pub fn check_gamepad_compatibility(device_name: &str) -> (supported: bool)
    ensures
        supported == is_supported(device_name@),
{
    let mut k: usize = 0;
    while k < GAMEPAD_COMPATIBLE_LEN
        invariant
            k <= GAMEPAD_COMPATIBLE_LEN,
            compatible_names().len() == GAMEPAD_COMPATIBLE_LEN,
            forall|j: int|
                0 <= j < k ==> !contains_ignoring_case(
                    device_name@,
                    #[trigger] compatible_names()[j],
                ),
        decreases GAMEPAD_COMPATIBLE_LEN - k,
    {
        if contains_ignore_case(device_name, compatible_name(k)) {
            return true;
        }
        k += 1;
    }
    false
}

/// Picks the controller family from an advertised name.
pub fn detect_gamepad_type(device_name: &str) -> (family: Option<GamepadType>)
    ensures
        family == family_of(device_name@),
{
    if contains_ignore_case(device_name, "xbox") {
        Some(GamepadType::XboxOne)
    } else {
        None
    }
}

/// A name that holds an allow-listed name somewhere inside it, written in any
/// mix of capital and small letters, is supported.
pub proof fn lemma_embedded_name_is_supported(
    before: Seq<char>,
    inner: Seq<char>,
    after: Seq<char>,
    k: int,
)
    requires
        0 <= k < compatible_names().len(),
        folded(inner) == folded(compatible_names()[k]),
    ensures
        is_supported(before + inner + after),
{
    let name = before + inner + after;
    let needle = folded(compatible_names()[k]);
    let at = before.len() as int;
    assert(folded(name).subrange(at, at + needle.len()) =~= folded(inner));
    assert(occurs_at(folded(name), needle, at));
    assert(contains_ignoring_case(name, compatible_names()[k]));
}

/// The empty name is not supported.
pub proof fn lemma_empty_name_is_unsupported()
    ensures
        !is_supported(Seq::<char>::empty()),
{
    reveal_strlit("XBOX WIRELESS CONTROLLER");
    let name = Seq::<char>::empty();
    assert forall|k: int| 0 <= k < compatible_names().len() implies !contains_ignoring_case(
        name,
        #[trigger] compatible_names()[k],
    ) by {
        assert(folded(compatible_names()[k]).len() > 0);
        assert(folded(name).len() == 0);
    }
}

/// A name that has no letter in common with any allow-listed name, letter case
/// ignored, is not supported.
pub proof fn lemma_disjoint_name_is_unsupported(name: Seq<char>)
    requires
        forall|i: int, j: int, k: int|
            0 <= i < name.len() && 0 <= k < compatible_names().len() && 0 <= j
                < compatible_names()[k].len() ==> fold_case(#[trigger] name[i]) != fold_case(
                #[trigger] compatible_names()[k][j],
            ),
    ensures
        !is_supported(name),
{
    reveal_strlit("XBOX WIRELESS CONTROLLER");
    assert forall|k: int| 0 <= k < compatible_names().len() implies !contains_ignoring_case(
        name,
        #[trigger] compatible_names()[k],
    ) by {
        let needle = compatible_names()[k];
        assert(needle.len() > 0);
        assert forall|at: int| !occurs_at(folded(name), folded(needle), at) by {
            if occurs_at(folded(name), folded(needle), at) {
                let window = folded(name).subrange(at, at + folded(needle).len());
                assert(window[0] == folded(needle)[0]);
                assert(window[0] == fold_case(name[at]));
                assert(folded(needle)[0] == fold_case(needle[0]));
                assert(fold_case(name[at]) != fold_case(compatible_names()[k][0]));
            }
        }
    }
}

} // verus!
