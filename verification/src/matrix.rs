use vstd::prelude::*;

verus! {

/// Microseconds a changed level has to last before a key changes its state.
pub const DEBOUNCE_TIME_US: u64 = 5000;

/// The debounced state of one contact of a key matrix. Times are in
/// microseconds.
#[derive(Copy, Clone, Debug, PartialEq, Eq, Structural)]
pub struct Debouncer {
    pub state: bool,
    /// When a level that differs from the state was first seen, while the
    /// state waits for it to last.
    pub debounced: Option<u64>,
}

impl Debouncer {
    /// Whether `now` is not before the time the debouncer waits from.
    pub open spec fn accepts(&self, now: u64) -> bool {
        self.debounced matches Some(since) ==> since <= now
    }

    /// The debouncer after it saw the level `buf` at `now`: a level that
    /// differs from the state starts the wait; once the wait has lasted
    /// longer than the debounce time, the level seen then becomes the state.
    pub open spec fn after_update(&self, buf: bool, now: u64) -> Debouncer {
        match self.debounced {
            Some(since) => if now - since > DEBOUNCE_TIME_US {
                Debouncer { state: buf, debounced: None }
            } else {
                *self
            },
            None => if buf != self.state {
                Debouncer { state: self.state, debounced: Some(now) }
            } else {
                *self
            },
        }
    }

    pub fn default() -> (debouncer: Self)
        ensures
            debouncer == (Debouncer { state: false, debounced: None }),
    {
        Debouncer { state: false, debounced: None }
    }

    pub fn is_pressed(&self) -> (pressed: bool)
        ensures
            pressed == self.state,
    {
        self.state
    }

    pub fn update_buf(&mut self, buf: bool, now: u64)
        requires
            old(self).accepts(now),
        ensures
            *final(self) == old(self).after_update(buf, now),
            final(self).accepts(now),
    {
        match self.debounced {
            Some(time) => {
                if now - time > DEBOUNCE_TIME_US {
                    self.state = buf;
                    self.debounced = None;
                }
            },
            None => {
                if buf != self.state {
                    self.debounced = Some(now);
                }
            },
        }
    }
}

/// A level has to be seen twice, more than the debounce time apart, to
/// change the state: the first sight starts the wait, and the state follows
/// the level seen after it.
pub proof fn lemma_debounce(debouncer: Debouncer, level: bool, first: u64, then: u64)
    requires
        debouncer.debounced is None,
        level != debouncer.state,
        first <= then,
    ensures
        debouncer.after_update(level, first).state == debouncer.state,
        debouncer.after_update(level, first).after_update(level, then).state == if then - first
            > DEBOUNCE_TIME_US {
            level
        } else {
            debouncer.state
        },
{
}

/// Whether one of the first `upto` contacts of a line is pressed.
pub open spec fn row_pressed(row: Seq<Debouncer>, upto: int) -> bool
    decreases upto,
{
    upto > 0 && (row_pressed(row, upto - 1) || row[upto - 1].state)
}

/// Whether a contact of one of the first `upto` lines is pressed.
pub open spec fn rows_pressed<const INPUT_SIZE: usize, const OUTPUT_SIZE: usize>(
    debouncers: [[Debouncer; OUTPUT_SIZE]; INPUT_SIZE],
    upto: int,
) -> bool
    decreases upto,
{
    upto > 0 && (rows_pressed(debouncers, upto - 1) || row_pressed(
        debouncers[upto - 1]@,
        OUTPUT_SIZE as int,
    ))
}

/// One contact of a matrix as the packing sees it: whether it counts, and
/// whether it is pressed.
pub struct Contact {
    pub valid: bool,
    pub pressed: bool,
}

/// The packed state of a row of contacts and the number of contacts that
/// count: the contacts that count take the bits from 0 up, in their order,
/// and a bit is set when its contact is pressed.
pub open spec fn pack_contacts(contacts: Seq<Contact>) -> (u32, nat)
    decreases contacts.len(),
{
    if contacts.len() == 0 {
        (0u32, 0nat)
    } else {
        let (state, index) = pack_contacts(contacts.drop_last());
        if contacts.last().valid {
            (
                if contacts.last().pressed {
                    state | (1u32 << (index as u32))
                } else {
                    state
                },
                index + 1,
            )
        } else {
            (state, index)
        }
    }
}

/// The debounced contacts of a key matrix with `INPUT_SIZE` input lines and
/// `OUTPUT_SIZE` output lines.
#[derive(Copy, Clone, Debug)]
pub struct Matrix<const INPUT_SIZE: usize, const OUTPUT_SIZE: usize> {
    /// Whether the contact of an input and an output line has a key.
    pub valid_input: [[bool; OUTPUT_SIZE]; INPUT_SIZE],
    pub debouncers: [[Debouncer; OUTPUT_SIZE]; INPUT_SIZE],
    /// Since when no key is pressed, if none is.
    pub pressed: Option<u64>,
}

impl<const INPUT_SIZE: usize, const OUTPUT_SIZE: usize> Matrix<INPUT_SIZE, OUTPUT_SIZE> {
    /// The contacts of input line `input`, in the order of the output
    /// lines.
    pub open spec fn row_contacts(&self, input: int) -> Seq<Contact> {
        Seq::new(
            OUTPUT_SIZE as nat,
            |i: int|
                Contact {
                    valid: self.valid_input[input][i],
                    pressed: self.debouncers[input][i].state,
                },
        )
    }

    /// The contacts of the input lines below `upto`, line after line.
    pub open spec fn contacts_upto(&self, upto: int) -> Seq<Contact>
        decreases upto,
    {
        if upto <= 0 {
            Seq::empty()
        } else {
            self.contacts_upto(upto - 1) + self.row_contacts(upto - 1)
        }
    }

    /// Whether `now` is not before any time the matrix waits from.
    pub open spec fn accepts(&self, now: u64) -> bool {
        &&& forall|j: int, i: int|
            0 <= j < INPUT_SIZE && 0 <= i < OUTPUT_SIZE ==> (#[trigger] self.debouncers[j][i]).accepts(
                now,
            )
        &&& self.pressed matches Some(since) ==> since <= now
    }

    /// Whether a contact of the matrix is pressed.
    pub open spec fn any_pressed(&self) -> bool {
        rows_pressed(self.debouncers, INPUT_SIZE as int)
    }

    pub fn new() -> (matrix: Self)
        ensures
            matrix.pressed is None,
            forall|j: int, i: int|
                0 <= j < INPUT_SIZE && 0 <= i < OUTPUT_SIZE ==> (#[trigger] matrix.valid_input[j][i])
                    && matrix.debouncers[j][i] == (Debouncer { state: false, debounced: None }),
    {
        Matrix {
            valid_input: [[true;OUTPUT_SIZE];INPUT_SIZE],
            debouncers: [[Debouncer { state: false, debounced: None };OUTPUT_SIZE];INPUT_SIZE],
            pressed: None,
        }
    }

    /// Marks contacts as having no key: with the contacts counted line after
    /// line and, within a line, in the order of the output lines, those
    /// whose number lies in `range`.
    pub fn disable_debouncer(&mut self, range: core::ops::Range<usize>)
        ensures
            final(self).debouncers == old(self).debouncers,
            final(self).pressed == old(self).pressed,
            forall|j: int, i: int|
                0 <= j < INPUT_SIZE && 0 <= i < OUTPUT_SIZE ==> #[trigger] final(self).valid_input[j][i]
                    == (old(self).valid_input[j][i] && !(range.start <= j * OUTPUT_SIZE + i
                    < range.end)),
    {
        let mut skip: usize = range.start;
        let mut take: usize = if range.end > range.start {
            range.end - range.start
        } else {
            0
        };
        let mut j: usize = 0;
        while j < INPUT_SIZE
            invariant
                j <= INPUT_SIZE,
                self.debouncers == old(self).debouncers,
                self.pressed == old(self).pressed,
                skip == if j * OUTPUT_SIZE <= range.start {
                    range.start - j * OUTPUT_SIZE
                } else {
                    0
                },
                take == if j * OUTPUT_SIZE <= range.start {
                    if range.end > range.start {
                        range.end - range.start
                    } else {
                        0
                    }
                } else if j * OUTPUT_SIZE < range.end {
                    range.end - j * OUTPUT_SIZE
                } else {
                    0
                },
                forall|a: int, i: int|
                    0 <= a < j && 0 <= i < OUTPUT_SIZE ==> #[trigger] self.valid_input[a][i] == (old(
                        self,
                    ).valid_input[a][i] && !(range.start <= a * OUTPUT_SIZE + i < range.end)),
                forall|a: int| j <= a < INPUT_SIZE ==> #[trigger] self.valid_input[a] == old(self).valid_input[a],
            decreases INPUT_SIZE - j,
        {
            let mut row = self.valid_input[j];
            let mut i: usize = 0;
            while i < OUTPUT_SIZE
                invariant
                    i <= OUTPUT_SIZE,
                    j < INPUT_SIZE,
                    skip == if j * OUTPUT_SIZE + i <= range.start {
                        range.start - (j * OUTPUT_SIZE + i)
                    } else {
                        0
                    },
                    take == if j * OUTPUT_SIZE + i <= range.start {
                        if range.end > range.start {
                            range.end - range.start
                        } else {
                            0
                        }
                    } else if j * OUTPUT_SIZE + i < range.end {
                        range.end - (j * OUTPUT_SIZE + i)
                    } else {
                        0
                    },
                    forall|b: int|
                        0 <= b < i ==> #[trigger] row[b] == (old(self).valid_input[j as int][b] && !(
                        range.start <= j * OUTPUT_SIZE + b < range.end)),
                    forall|b: int| i <= b < OUTPUT_SIZE ==> #[trigger] row[b] == old(self).valid_input[j as int][b],
                decreases OUTPUT_SIZE - i,
            {
                if skip > 0 {
                    skip -= 1;
                } else if take > 0 {
                    row[i] = false;
                    take -= 1;
                }
                i += 1;
            }
            self.valid_input[j] = row;
            assert((j + 1) * OUTPUT_SIZE == j * OUTPUT_SIZE + OUTPUT_SIZE) by (nonlinear_arith);
            j += 1;
        }
    }

    /// Whether the matrix may stop scanning and wait for a line to go high:
    /// when no key has been pressed for as long as the debounce time.
    pub fn may_sleep(&self, now: u64) -> (sleep: bool)
        requires
            self.accepts(now),
        ensures
            sleep == (self.pressed matches Some(since) && now - since >= DEBOUNCE_TIME_US),
    {
        match self.pressed {
            Some(time) => now - time >= DEBOUNCE_TIME_US,
            None => false,
        }
    }

    /// Takes the levels of one scan, read at `now`: `levels[j][i]` is the
    /// level of input line `j` while output line `i` is driven. Every contact
    /// is debounced with its level, and the time since which no key is
    /// pressed is kept.
    pub fn update(&mut self, levels: &[[bool; OUTPUT_SIZE]; INPUT_SIZE], now: u64)
        requires
            old(self).accepts(now),
        ensures
            final(self).accepts(now),
            final(self).valid_input == old(self).valid_input,
            forall|j: int, i: int|
                0 <= j < INPUT_SIZE && 0 <= i < OUTPUT_SIZE ==> #[trigger] final(self).debouncers[j][i]
                    == old(self).debouncers[j][i].after_update(levels[j][i], now),
            final(self).pressed == if final(self).any_pressed() {
                None
            } else if old(self).pressed is Some {
                old(self).pressed
            } else {
                Some(now)
            },
    {
        let mut j: usize = 0;
        while j < INPUT_SIZE
            invariant
                j <= INPUT_SIZE,
                old(self).accepts(now),
                self.valid_input == old(self).valid_input,
                self.pressed == old(self).pressed,
                forall|a: int, i: int|
                    0 <= a < j && 0 <= i < OUTPUT_SIZE ==> #[trigger] self.debouncers[a][i] == old(
                        self,
                    ).debouncers[a][i].after_update(levels[a][i], now),
                forall|a: int| j <= a < INPUT_SIZE ==> #[trigger] self.debouncers[a] == old(self).debouncers[a],
            decreases INPUT_SIZE - j,
        {
            let mut row = self.debouncers[j];
            let level_row = levels[j];
            let mut i: usize = 0;
            while i < OUTPUT_SIZE
                invariant
                    i <= OUTPUT_SIZE,
                    j < INPUT_SIZE,
                    old(self).accepts(now),
                    level_row == levels[j as int],
                    forall|b: int|
                        0 <= b < i ==> #[trigger] row[b] == old(self).debouncers[j as int][b].after_update(
                            level_row[b],
                            now,
                        ),
                    forall|b: int| i <= b < OUTPUT_SIZE ==> #[trigger] row[b] == old(self).debouncers[j as int][b],
                decreases OUTPUT_SIZE - i,
            {
                assert(old(self).debouncers[j as int][i as int].accepts(now));
                let mut debouncer = row[i];
                debouncer.update_buf(level_row[i], now);
                row[i] = debouncer;
                i += 1;
            }
            self.debouncers[j] = row;
            j += 1;
        }
        let mut pressed = false;
        let mut j: usize = 0;
        while j < INPUT_SIZE
            invariant
                j <= INPUT_SIZE,
                pressed == rows_pressed(self.debouncers, j as int),
            decreases INPUT_SIZE - j,
        {
            let row = self.debouncers[j];
            let mut i: usize = 0;
            let ghost seen = pressed;
            while i < OUTPUT_SIZE
                invariant
                    i <= OUTPUT_SIZE,
                    pressed == (seen || row_pressed(row@, i as int)),
                decreases OUTPUT_SIZE - i,
            {
                pressed = pressed || row[i].is_pressed();
                i += 1;
            }
            j += 1;
        }
        if pressed {
            self.pressed = None;
        } else {
            match self.pressed {
                Some(_) => {},
                None => {
                    self.pressed = Some(now);
                },
            }
        }
    }

    /// Packs the press states of the contacts that have a key: they take
    /// the bits from 0 up, input line after input line and, within a line,
    /// in the order of the output lines. No more than 32 contacts may have a
    /// key.
    pub fn get_state(&self) -> (state: u32)
        requires
            pack_contacts(self.contacts_upto(INPUT_SIZE as int)).1 <= 32,
        ensures
            state == pack_contacts(self.contacts_upto(INPUT_SIZE as int)).0,
    {
        let mut index: u32 = 0;
        let mut state: u32 = 0u32;
        let mut j: usize = 0;
        while j < INPUT_SIZE
            invariant
                j <= INPUT_SIZE,
                pack_contacts(self.contacts_upto(INPUT_SIZE as int)).1 <= 32,
                (state, index as nat) == pack_contacts(self.contacts_upto(j as int)),
            decreases INPUT_SIZE - j,
        {
            let valid_row = self.valid_input[j];
            let row = self.debouncers[j];
            let ghost before = self.contacts_upto(j as int);
            let ghost contacts = self.row_contacts(j as int);
            let mut i: usize = 0;
            proof {
                assert(before + contacts.take(0) =~= before);
                lemma_pack_count_grows(self.contacts_upto(j + 1), before.len() as int);
                self.lemma_count_grows(j + 1, INPUT_SIZE as int);
            }
            while i < OUTPUT_SIZE
                invariant
                    i <= OUTPUT_SIZE,
                    j < INPUT_SIZE,
                    valid_row == self.valid_input[j as int],
                    row == self.debouncers[j as int],
                    before == self.contacts_upto(j as int),
                    contacts == self.row_contacts(j as int),
                    pack_contacts(before + contacts).1 <= 32,
                    (state, index as nat) == pack_contacts(before + contacts.take(i as int)),
                decreases OUTPUT_SIZE - i,
            {
                proof {
                    let so_far = before + contacts.take(i + 1);
                    assert(so_far.drop_last() =~= before + contacts.take(i as int));
                    assert(so_far.last() == contacts[i as int]);
                    assert((before + contacts).take(so_far.len() as int) =~= so_far);
                    lemma_pack_count_grows(before + contacts, so_far.len() as int);
                }
                if valid_row[i] {
                    if row[i].is_pressed() {
                        state |= 1u32 << index;
                    }
                    index += 1;
                }
                i += 1;
            }
            assert(contacts.take(OUTPUT_SIZE as int) =~= contacts);
            j += 1;
        }
        state
    }

    proof fn lemma_count_grows(&self, a: int, b: int)
        requires
            0 <= a <= b,
        ensures
            pack_contacts(self.contacts_upto(a)).1 <= pack_contacts(self.contacts_upto(b)).1,
        decreases b - a,
    {
        if a < b {
            self.lemma_count_grows(a, b - 1);
            let whole = self.contacts_upto(b);
            let part = self.contacts_upto(b - 1);
            assert(whole.take(part.len() as int) =~= part);
            lemma_pack_count_grows(whole, part.len() as int);
        }
    }
}

/// A prefix of a row of contacts holds no more contacts that count than
/// the row.
pub proof fn lemma_pack_count_grows(contacts: Seq<Contact>, upto: int)
    requires
        0 <= upto <= contacts.len(),
    ensures
        pack_contacts(contacts.take(upto)).1 <= pack_contacts(contacts).1,
    decreases contacts.len() - upto,
{
    if upto < contacts.len() {
        lemma_pack_count_grows(contacts, upto + 1);
        assert(contacts.take(upto + 1).drop_last() =~= contacts.take(upto));
    } else {
        assert(contacts.take(upto) =~= contacts);
    }
}

/// Turns a list that names, for each place, the item that stands there into
/// the list that names, for each item, the place where it stands. An item
/// that stands at several places gets the last of them, one that stands
/// nowhere gets place 0.
pub fn find_order(ary: &mut [usize])
    ensures
        final(ary)@.len() == old(ary)@.len(),
        forall|i: int| 0 <= i < old(ary)@.len() ==> #[trigger] final(ary)@[i] == place_of(old(ary)@, i, old(ary)@.len() as int),
{
    let n = ary.len();
    let mut new_ary: Vec<usize> = Vec::new();
    let mut i: usize = 0;
    while i < n
        invariant
            i <= n,
            n == ary@.len(),
            ary@ == old(ary)@,
            new_ary@.len() == i,
            forall|a: int| 0 <= a < i ==> #[trigger] new_ary@[a] == place_of(ary@, a, n as int),
        decreases n - i,
    {
        let mut place: usize = 0;
        let mut j: usize = 0;
        while j < n
            invariant
                j <= n,
                n == ary@.len(),
                i < n,
                place == place_of(ary@, i as int, j as int),
            decreases n - j,
        {
            if ary[j] == i {
                place = j;
            }
            j += 1;
        }
        new_ary.push(place);
        i += 1;
    }
    let mut i: usize = 0;
    while i < n
        invariant
            i <= n,
            n == ary@.len(),
            n == new_ary@.len(),
            n == old(ary)@.len(),
            forall|a: int| 0 <= a < n ==> #[trigger] new_ary@[a] == place_of(old(ary)@, a, n as int),
            forall|a: int| 0 <= a < i ==> #[trigger] ary@[a] == new_ary@[a],
        decreases n - i,
    {
        ary[i] = new_ary[i];
        i += 1;
    }
}

/// The last place below `upto` at which `item` stands in `order`, and 0 if
/// it stands at none.
pub open spec fn place_of(order: Seq<usize>, item: int, upto: int) -> usize
    decreases upto,
{
    if upto <= 0 {
        0
    } else if order[upto - 1] == item {
        (upto - 1) as usize
    } else {
        place_of(order, item, upto - 1)
    }
}

/// Where every item stands at exactly one place, the result of `find_order`
/// undoes the list: the item at the place found for an item is that item.
pub proof fn lemma_place_of_inverts(order: Seq<usize>, item: int, upto: int)
    requires
        0 <= upto <= order.len(),
        upto <= usize::MAX,
        exists|j: int| 0 <= j < upto && order[j] == item,
    ensures
        0 <= place_of(order, item, upto) < upto,
        order[place_of(order, item, upto) as int] == item,
    decreases upto,
{
    if order[upto - 1] != item {
        let j = choose|j: int| 0 <= j < upto && order[j] == item;
        assert(j < upto - 1);
        lemma_place_of_inverts(order, item, upto - 1);
    }
}

} // verus!
