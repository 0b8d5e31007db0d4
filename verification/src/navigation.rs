//! The navigation and label layer: jump-target labels, explicit bank
//! assignments, and a back/forward history of visited offsets.
//!
//! The history keeps the offsets that `follow` commands were issued from,
//! together with a cursor into that record.  A new `follow` after stepping
//! back truncates the stale forward entries, giving the usual undo/redo
//! behaviour.

use std::collections::HashMap;

use vstd::prelude::*;
use vstd::string::StringExecFns;

use crate::disassembler::{Architecture, Disassembler, spec_resolve_branch_address};

verus! {

broadcast use vstd::std_specs::hash::group_hash_axioms;

/// Mathematical view of a `Navigation` value.
pub struct NavigationView {
    /// The offsets follow commands were issued from, oldest first.
    pub entries: Seq<usize>,
    /// How many entries lie behind the current position.
    pub top: nat,
    /// The offset the user is looking at.
    pub cursor: usize,
    /// Jump-target labels by image offset.
    pub labels: Map<usize, String>,
    /// Explicit bank assignments by read location.
    pub banks: Map<usize, usize>,
}

impl NavigationView {
    /// The position never points past the recorded entries.
    pub open spec fn wf(self) -> bool {
        self.top <= self.entries.len()
    }
}

/// What `follow` does to the view: stale forward entries are dropped, the
/// offset the jump was issued from is recorded, and the cursor moves to
/// the target.
pub open spec fn spec_follow(h: NavigationView, to: usize) -> NavigationView {
    NavigationView {
        entries: h.entries.take(h.top as int).push(h.cursor),
        top: h.top + 1,
        cursor: to,
        labels: h.labels,
        banks: h.banks,
    }
}

/// What `back` does to the view: a no-op at the oldest entry, else one
/// step back.
pub open spec fn spec_back(h: NavigationView) -> NavigationView {
    if h.top == 0 {
        h
    } else {
        NavigationView {
            entries: h.entries,
            top: (h.top - 1) as nat,
            cursor: h.entries[h.top - 1],
            labels: h.labels,
            banks: h.banks,
        }
    }
}

/// What `forward` does to the view: a no-op at the newest entry, else one
/// step forward.
pub open spec fn spec_forward(h: NavigationView) -> NavigationView {
    if h.top >= h.entries.len() {
        h
    } else {
        NavigationView {
            entries: h.entries,
            top: h.top + 1,
            cursor: h.entries[h.top as int],
            labels: h.labels,
            banks: h.banks,
        }
    }
}

/// A sequence of `follow` steps, one per target.
pub open spec fn spec_follows(h: NavigationView, targets: Seq<usize>) -> NavigationView
    decreases targets.len(),
{
    if targets.len() == 0 {
        h
    } else {
        spec_follows(spec_follow(h, targets[0]), targets.drop_first())
    }
}

/// `n` `back` steps.
pub open spec fn spec_backs(h: NavigationView, n: nat) -> NavigationView
    decreases n,
{
    if n == 0 {
        h
    } else {
        spec_backs(spec_back(h), (n - 1) as nat)
    }
}

/// Iterating `back` one more time is the same as stepping back once after
/// the iterations.
proof fn lemma_backs_snoc(h: NavigationView, n: nat)
    ensures
        spec_backs(h, n + 1) == spec_back(spec_backs(h, n)),
    decreases n,
{
    if n == 0 {
        assert(spec_backs(h, 1) == spec_backs(spec_back(h), 0));
    } else {
        lemma_backs_snoc(spec_back(h), (n - 1) as nat);
        assert(spec_backs(h, n + 1) == spec_backs(spec_back(h), n));
        assert(spec_backs(h, n) == spec_backs(spec_back(h), (n - 1) as nat));
    }
}

/// History symmetry: any number of `follow` steps followed by the same
/// number of `back` steps returns the cursor (and the position in the
/// history) to where it started.
pub proof fn lemma_history_symmetry(h: NavigationView, targets: Seq<usize>)
    requires
        h.wf(),
    ensures
        ({
            let after = spec_follows(h, targets);
            let end = spec_backs(after, targets.len());
            &&& after.top == h.top + targets.len()
            &&& after.wf()
            &&& forall|i: int| 0 <= i < h.top ==> after.entries[i] == h.entries[i]
            &&& end.entries == after.entries
            &&& end.top == h.top
            &&& end.cursor == h.cursor
        }),
    decreases targets.len(),
{
    if targets.len() == 0 {
    } else {
        let h1 = spec_follow(h, targets[0]);
        let rest = targets.drop_first();
        assert(h1.entries[h.top as int] == h.cursor);
        lemma_history_symmetry(h1, rest);
        let after = spec_follows(h, targets);
        assert(after == spec_follows(h1, rest));
        lemma_backs_snoc(after, rest.len());
        let end1 = spec_backs(after, rest.len());
        assert(end1.entries[h.top as int] == h.cursor);
        assert(spec_backs(after, targets.len()) == spec_back(end1));
    }
}

/// The text of an automatically assigned label: `LOC_` followed by the
/// offset in uppercase hexadecimal, zero padded to at least six digits.
pub open spec fn spec_hex_digit(d: int) -> char {
    if d == 0 {
        '0'
    } else if d == 1 {
        '1'
    } else if d == 2 {
        '2'
    } else if d == 3 {
        '3'
    } else if d == 4 {
        '4'
    } else if d == 5 {
        '5'
    } else if d == 6 {
        '6'
    } else if d == 7 {
        '7'
    } else if d == 8 {
        '8'
    } else if d == 9 {
        '9'
    } else if d == 10 {
        'A'
    } else if d == 11 {
        'B'
    } else if d == 12 {
        'C'
    } else if d == 13 {
        'D'
    } else if d == 14 {
        'E'
    } else {
        'F'
    }
}

/// The uppercase hexadecimal digits of `n`, most significant first.
pub open spec fn spec_hex_text(n: int) -> Seq<char>
    decreases n,
{
    if n < 16 {
        seq![spec_hex_digit(n)]
    } else {
        spec_hex_text(n / 16).push(spec_hex_digit(n % 16))
    }
}

/// The text of the label `ensure_default_label` assigns to `offset`.
pub open spec fn spec_default_label_text(offset: int) -> Seq<char> {
    let digits = spec_hex_text(offset);
    let padded = if digits.len() >= 6 {
        digits
    } else {
        Seq::new((6 - digits.len()) as nat, |i: int| '0') + digits
    };
    "LOC_"@ + padded
}

/// The one-character text of a hexadecimal digit.
fn hex_digit_str(d: usize) -> (r: &'static str)
    requires
        d < 16,
    ensures
        r@ == seq![spec_hex_digit(d as int)],
{
    if d == 0 {
        proof {
            reveal_strlit("0");
        }
        "0"
    } else if d == 1 {
        proof {
            reveal_strlit("1");
        }
        "1"
    } else if d == 2 {
        proof {
            reveal_strlit("2");
        }
        "2"
    } else if d == 3 {
        proof {
            reveal_strlit("3");
        }
        "3"
    } else if d == 4 {
        proof {
            reveal_strlit("4");
        }
        "4"
    } else if d == 5 {
        proof {
            reveal_strlit("5");
        }
        "5"
    } else if d == 6 {
        proof {
            reveal_strlit("6");
        }
        "6"
    } else if d == 7 {
        proof {
            reveal_strlit("7");
        }
        "7"
    } else if d == 8 {
        proof {
            reveal_strlit("8");
        }
        "8"
    } else if d == 9 {
        proof {
            reveal_strlit("9");
        }
        "9"
    } else if d == 10 {
        proof {
            reveal_strlit("A");
        }
        "A"
    } else if d == 11 {
        proof {
            reveal_strlit("B");
        }
        "B"
    } else if d == 12 {
        proof {
            reveal_strlit("C");
        }
        "C"
    } else if d == 13 {
        proof {
            reveal_strlit("D");
        }
        "D"
    } else if d == 14 {
        proof {
            reveal_strlit("E");
        }
        "E"
    } else {
        proof {
            reveal_strlit("F");
        }
        "F"
    }
}

/// The uppercase hexadecimal text of `n`, most significant digit first.
fn hex_text_string(n: usize) -> (r: String)
    ensures
        r@ == spec_hex_text(n as int),
    decreases n,
{
    if n < 16 {
        String::from_str(hex_digit_str(n))
    } else {
        proof {
            assert(n / 16 < n) by (nonlinear_arith)
                requires
                    n >= 16,
            ;
        }
        let mut text = hex_text_string(n / 16);
        text.append(hex_digit_str(n % 16));
        text
    }
}

/// `spec_hex_text` yields one character per hexadecimal digit.
proof fn lemma_hex_text_len(n: int)
    requires
        0 <= n,
    ensures
        n < 0x10 ==> spec_hex_text(n).len() == 1,
        0x10 <= n < 0x100 ==> spec_hex_text(n).len() == 2,
        0x100 <= n < 0x1000 ==> spec_hex_text(n).len() == 3,
        0x1000 <= n < 0x10000 ==> spec_hex_text(n).len() == 4,
        0x10000 <= n < 0x100000 ==> spec_hex_text(n).len() == 5,
        0x100000 <= n ==> spec_hex_text(n).len() >= 6,
    decreases n,
{
    if n >= 16 {
        lemma_hex_text_len(n / 16);
    }
}

/// Build the default label text: `LOC_`, zero padding up to six digits,
/// then the offset in uppercase hexadecimal.
fn format_default_label(offset: usize) -> (r: String)
    ensures
        r@ == spec_default_label_text(offset as int),
{
    proof {
        reveal_strlit("LOC_");
        reveal_strlit("");
        reveal_strlit("0");
        reveal_strlit("00");
        reveal_strlit("000");
        reveal_strlit("0000");
        reveal_strlit("00000");
        lemma_hex_text_len(offset as int);
    }
    let zeros: &'static str = if offset < 0x10 {
        "00000"
    } else if offset < 0x100 {
        "0000"
    } else if offset < 0x1000 {
        "000"
    } else if offset < 0x10000 {
        "00"
    } else if offset < 0x100000 {
        "0"
    } else {
        ""
    };
    let digits = hex_text_string(offset);
    let mut text = String::from_str("LOC_");
    text.append(zeros);
    text.append(digits.as_str());
    proof {
        let expected = spec_default_label_text(offset as int);
        assert(text@ =~= expected);
    }
    text
}

/// The navigation and label layer: owns the label and bank maps and the
/// follow history.
pub struct Navigation {
    follow_stack: Vec<usize>,
    follow_stack_top: usize,
    cursor: usize,
    labels: HashMap<usize, String>,
    banks: HashMap<usize, usize>,
}

impl View for Navigation {
    type V = NavigationView;

    closed spec fn view(&self) -> NavigationView {
        NavigationView {
            entries: self.follow_stack@,
            top: self.follow_stack_top as nat,
            cursor: self.cursor,
            labels: self.labels@,
            banks: self.banks@,
        }
    }
}

impl Navigation {
    /// An empty history with the cursor at `start`, no labels, and no bank
    /// assignments.
    pub fn new(start: usize) -> (r: Navigation)
        ensures
            r@.wf(),
            r@.entries == Seq::<usize>::empty(),
            r@.top == 0,
            r@.cursor == start,
            r@.labels == Map::<usize, String>::empty(),
            r@.banks == Map::<usize, usize>::empty(),
    {
        let r = Navigation {
            follow_stack: Vec::new(),
            follow_stack_top: 0,
            cursor: start,
            labels: HashMap::new(),
            banks: HashMap::new(),
        };
        proof {
            assert(r@.entries =~= Seq::<usize>::empty());
        }
        r
    }

    /// The offset the user is looking at.
    pub fn cursor(&self) -> (r: usize)
        ensures
            r == self@.cursor,
    {
        self.cursor
    }

    /// Plain cursor movement, without recording history.
    pub fn move_cursor(&mut self, to: usize)
        ensures
            final(self)@ == (NavigationView { cursor: to, ..old(self)@ }),
    {
        self.cursor = to;
    }

    /// Record a jump from the current cursor position and move to `to`.
    /// Any forward entries that stepping back had left reachable are
    /// discarded: afterwards the position is at the newest entry.
    pub fn follow(&mut self, to: usize)
        requires
            old(self)@.wf(),
        ensures
            final(self)@.wf(),
            final(self)@ == spec_follow(old(self)@, to),
            final(self)@.top == final(self)@.entries.len(),
    {
        self.follow_stack.truncate(self.follow_stack_top);
        self.follow_stack.push(self.cursor);
        self.follow_stack_top = self.follow_stack.len();
        self.cursor = to;
        proof {
            assert(self@.entries =~= old(self)@.entries.take(old(self)@.top as int).push(
                old(self)@.cursor,
            ));
        }
    }

    /// Step back one history entry and return the offset there; a no-op
    /// returning `None` at the oldest entry.
    pub fn back(&mut self) -> (r: Option<usize>)
        requires
            old(self)@.wf(),
        ensures
            final(self)@.wf(),
            final(self)@ == spec_back(old(self)@),
            r == if old(self)@.top == 0 {
                None::<usize>
            } else {
                Some(old(self)@.entries[old(self)@.top - 1])
            },
    {
        if self.follow_stack_top == 0 {
            None
        } else {
            self.follow_stack_top = self.follow_stack_top - 1;
            let address = self.follow_stack[self.follow_stack_top];
            self.cursor = address;
            Some(address)
        }
    }

    /// Step forward one history entry and return the offset there; a
    /// no-op returning `None` at the newest entry.
    pub fn forward(&mut self) -> (r: Option<usize>)
        requires
            old(self)@.wf(),
        ensures
            final(self)@.wf(),
            final(self)@ == spec_forward(old(self)@),
            r == if old(self)@.top >= old(self)@.entries.len() {
                None::<usize>
            } else {
                Some(old(self)@.entries[old(self)@.top as int])
            },
    {
        if self.follow_stack_top == self.follow_stack.len() {
            None
        } else {
            let address = self.follow_stack[self.follow_stack_top];
            self.follow_stack_top = self.follow_stack_top + 1;
            self.cursor = address;
            Some(address)
        }
    }

    /// Explicit user request: bind `name` to `offset`, overwriting any
    /// earlier label there.
    pub fn set_label(&mut self, offset: usize, name: String)
        ensures
            final(self)@ == (NavigationView {
                labels: old(self)@.labels.insert(offset, name),
                ..old(self)@
            }),
    {
        self.labels.insert(offset, name);
    }

    /// The label bound to `offset`, if any.
    pub fn label_for(&self, offset: usize) -> (r: Option<&String>)
        ensures
            match r {
                Some(name) => self@.labels.contains_key(offset) && *name == self@.labels[offset],
                None => !self@.labels.contains_key(offset),
            },
    {
        self.labels.get(&offset)
    }

    /// Bind the default name to `offset` only if no label is there yet;
    /// a user-set name is never overwritten.  Discovery calls this for
    /// every resolved branch target, so every reachable jump destination
    /// becomes navigable.
    pub fn ensure_default_label(&mut self, offset: usize)
        ensures
            final(self)@.entries == old(self)@.entries,
            final(self)@.top == old(self)@.top,
            final(self)@.cursor == old(self)@.cursor,
            final(self)@.banks == old(self)@.banks,
            old(self)@.labels.contains_key(offset) ==> final(self)@ == old(self)@,
            !old(self)@.labels.contains_key(offset) ==> final(self)@.labels == old(
                self,
            )@.labels.insert(offset, final(self)@.labels[offset]),
            !old(self)@.labels.contains_key(offset) ==> final(self)@.labels[offset]@
                == spec_default_label_text(offset as int),
            final(self)@.labels.contains_key(offset),
            forall|k: usize|
                #[trigger] old(self)@.labels.contains_key(k) ==> final(self)@.labels.contains_key(
                    k,
                ) && final(self)@.labels[k] == old(self)@.labels[k],
            forall|k: usize|
                #[trigger] final(self)@.labels.contains_key(k) ==> old(self)@.labels.contains_key(
                    k,
                ) || k == offset,
    {
        if !self.labels.contains_key(&offset) {
            let name = format_default_label(offset);
            self.labels.insert(offset, name);
        }
    }

    /// Explicit user action: assign bank `bank` to read location
    /// `read_at`.
    pub fn assign_bank(&mut self, read_at: usize, bank: usize)
        ensures
            final(self)@ == (NavigationView {
                banks: old(self)@.banks.insert(read_at, bank),
                ..old(self)@
            }),
    {
        self.banks.insert(read_at, bank);
    }

    /// The bank assigned to `read_at`, if any.
    pub fn bank_for(&self, read_at: usize) -> (r: Option<usize>)
        ensures
            match r {
                Some(bank) => self@.banks.contains_key(read_at) && bank == self@.banks[read_at],
                None => !self@.banks.contains_key(read_at),
            },
    {
        match self.banks.get(&read_at) {
            Some(bank) => Some(*bank),
            None => None,
        }
    }

    /// The current bank assignments, for address resolution.
    pub fn banks(&self) -> (r: &HashMap<usize, usize>)
        ensures
            r@ == self@.banks,
    {
        &self.banks
    }
}

/// Give every resolved branch target of a `Code`-tagged offset a label,
/// inserting the default name only where no label is bound yet.  Invoked
/// after discovery so that every reachable call and jump site becomes
/// navigable without clobbering user-set names.
pub fn label_branch_targets<Arch: Architecture>(
    disasm: &Disassembler<Arch>,
    nav: &mut Navigation,
)
    requires
        disasm@.wf(),
    ensures
        final(nav)@.entries == old(nav)@.entries,
        final(nav)@.top == old(nav)@.top,
        final(nav)@.cursor == old(nav)@.cursor,
        final(nav)@.banks == old(nav)@.banks,
        forall|o: int|
            0 <= o < disasm@.tags.len() && disasm@.tags[o] is Code
                ==> (spec_resolve_branch_address::<Arch>(disasm@, o) matches Some(t)
                    ==> final(nav)@.labels.contains_key(t)),
        forall|k: usize|
            #[trigger] old(nav)@.labels.contains_key(k)
                ==> final(nav)@.labels.contains_key(k)
                && final(nav)@.labels[k] == old(nav)@.labels[k],
        forall|k: usize|
            #[trigger] final(nav)@.labels.contains_key(k) && !old(nav)@.labels.contains_key(k)
                ==> final(nav)@.labels[k]@ == spec_default_label_text(k as int),
{
    let ghost start = nav@;
    let image_len = disasm.len();
    let mut offset: usize = 0;
    while offset < image_len
        invariant
            disasm@.wf(),
            image_len == disasm@.rom.len(),
            offset <= image_len,
            nav@.entries == start.entries,
            nav@.top == start.top,
            nav@.cursor == start.cursor,
            nav@.banks == start.banks,
            forall|o: int|
                0 <= o < offset && disasm@.tags[o] is Code
                    ==> (spec_resolve_branch_address::<Arch>(disasm@, o) matches Some(t)
                        ==> nav@.labels.contains_key(t)),
            forall|k: usize|
                #[trigger] start.labels.contains_key(k) ==> nav@.labels.contains_key(k)
                    && nav@.labels[k] == start.labels[k],
            forall|k: usize|
                #[trigger] nav@.labels.contains_key(k) && !start.labels.contains_key(k)
                    ==> nav@.labels[k]@ == spec_default_label_text(k as int),
        decreases image_len - offset,
    {
        if disasm.tag_at(offset) == crate::disassembler::ByteType::Code {
            if let Some(target) = disasm.resolve_branch_address(offset) {
                nav.ensure_default_label(target);
            }
        }
        offset = offset + 1;
    }
}

/// Label stability: `set_label` binds exactly the user-set name, the
/// offset is then labelled, and `ensure_default_label` leaves a labelled
/// offset untouched, so the user-set name survives it.
pub proof fn lemma_label_stability(labels: Map<usize, String>, offset: usize, name: String)
    ensures
        labels.insert(offset, name).contains_key(offset),
        labels.insert(offset, name)[offset] == name,
{
}

} // verus!
