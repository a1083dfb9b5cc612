//! The slot-based status bar: named slots with content, alignment,
//! priority, visibility and width constraints. Slots are identified by
//! unique string ids; rendering groups the visible slots by alignment and
//! orders each group by descending priority.

use vstd::prelude::*;

verus! {

/// Where a slot sits in the status bar.
#[derive(Debug, Clone, Copy, PartialEq, Eq, Structural)]
pub enum SlotAlignment {
    Left,
    Center,
    Right,
}

/// One named piece of status bar content.
#[derive(Debug)]
pub struct StatusSlot {
    pub id: String,
    pub content: String,
    pub alignment: SlotAlignment,
    pub priority: u8,
    pub visible: bool,
    pub min_width: Option<u16>,
    pub max_width: Option<u16>,
}

impl Clone for StatusSlot {
    fn clone(&self) -> (r: StatusSlot)
        ensures
            r == *self,
    {
        StatusSlot {
            id: self.id.clone(),
            content: self.content.clone(),
            alignment: self.alignment,
            priority: self.priority,
            visible: self.visible,
            min_width: self.min_width,
            max_width: self.max_width,
        }
    }
}

impl StatusSlot {
    /// A visible, left-aligned slot at medium priority with no width
    /// constraints.
    pub fn new(id: &str, content: &str) -> (r: StatusSlot)
        ensures
            r.id@ == id@,
            r.content@ == content@,
            r.alignment == SlotAlignment::Left,
            r.priority == 50u8,
            r.visible,
            r.min_width is None,
            r.max_width is None,
    {
        StatusSlot {
            id: id.to_owned(),
            content: content.to_owned(),
            alignment: SlotAlignment::Left,
            priority: 50,
            visible: true,
            min_width: None,
            max_width: None,
        }
    }

    /// The same slot with another alignment.
    pub fn with_alignment(self, alignment: SlotAlignment) -> (r: StatusSlot)
        ensures
            r == (StatusSlot { alignment, ..self }),
    {
        StatusSlot { alignment, ..self }
    }

    /// The same slot with another priority.
    pub fn with_priority(self, priority: u8) -> (r: StatusSlot)
        ensures
            r == (StatusSlot { priority, ..self }),
    {
        StatusSlot { priority, ..self }
    }

    /// The same slot shown or hidden.
    pub fn with_visibility(self, visible: bool) -> (r: StatusSlot)
        ensures
            r == (StatusSlot { visible, ..self }),
    {
        StatusSlot { visible, ..self }
    }

    /// The same slot with both width constraints.
    pub fn with_width_constraints(self, min_width: Option<u16>, max_width: Option<u16>) -> (r:
        StatusSlot)
        ensures
            r == (StatusSlot { min_width, max_width, ..self }),
    {
        StatusSlot { min_width, max_width, ..self }
    }

    /// The same slot with a minimum display width.
    pub fn with_min_width(self, min_width: u16) -> (r: StatusSlot)
        ensures
            r == (StatusSlot { min_width: Some(min_width), ..self }),
    {
        StatusSlot { min_width: Some(min_width), ..self }
    }

    /// The same slot with a maximum display width.
    pub fn with_max_width(self, max_width: u16) -> (r: StatusSlot)
        ensures
            r == (StatusSlot { max_width: Some(max_width), ..self }),
    {
        StatusSlot { max_width: Some(max_width), ..self }
    }
}

/// The first position holding a slot with this id, if any.
pub open spec fn spec_find(slots: Seq<StatusSlot>, id: Seq<char>) -> Option<int>
    decreases slots.len(),
{
    if slots.len() == 0 {
        None
    } else if slots[0].id@ == id {
        Some(0)
    } else {
        match spec_find(slots.drop_first(), id) {
            None => None,
            Some(i) => Some(i + 1),
        }
    }
}

/// What `spec_find` returns really is the first match.
pub proof fn lemma_spec_find(slots: Seq<StatusSlot>, id: Seq<char>)
    ensures
        spec_find(slots, id) matches Some(i) ==> 0 <= i < slots.len() && slots[i].id@ == id
            && forall|j: int| 0 <= j < i ==> slots[j].id@ != id,
        spec_find(slots, id) is None ==> forall|j: int| 0 <= j < slots.len() ==> slots[j].id@
            != id,
    decreases slots.len(),
{
    if slots.len() > 0 {
        let rest = slots.drop_first();
        lemma_spec_find(rest, id);
        assert(forall|j: int| 0 <= j < rest.len() ==> rest[j] == slots[j + 1]);
        if slots[0].id@ == id {
            assert(spec_find(slots, id) == Some(0int));
        } else {
            match spec_find(rest, id) {
                None => {
                    assert(spec_find(slots, id) is None);
                    assert forall|j: int| 0 <= j < slots.len() implies slots[j].id@ != id by {
                        if j >= 1 {
                            assert(rest[j - 1].id@ != id);
                        }
                    }
                },
                Some(i) => {
                    assert(spec_find(slots, id) == Some(i + 1));
                    assert(rest[i].id@ == id);
                    assert(slots[i + 1].id@ == id);
                    assert forall|j: int| 0 <= j < i + 1 implies slots[j].id@ != id by {
                        if j >= 1 {
                            assert(rest[j - 1].id@ != id);
                        }
                    }
                },
            }
        }
    }
}

/// Slots that are visible and belong to one alignment group.
pub open spec fn visible_with(alignment: SlotAlignment) -> spec_fn(StatusSlot) -> bool {
    |s: StatusSlot| s.visible && s.alignment == alignment
}

/// Priorities never increase along the sequence.
pub open spec fn sorted_desc(s: Seq<StatusSlot>) -> bool {
    forall|i: int, j: int| 0 <= i < j < s.len() ==> s[i].priority >= s[j].priority
}

/// The status bar: its slots in insertion order, each id at most once, and
/// the separator drawn between slots.
#[derive(Debug)]
pub struct StatusBar {
    pub slots: Vec<StatusSlot>,
    pub separator: String,
    pub show_separators: bool,
}

impl Clone for StatusBar {
    fn clone(&self) -> (r: StatusBar)
        ensures
            r.slots@ =~= self.slots@,
            r.separator == self.separator,
            r.show_separators == self.show_separators,
    {
        let mut slots: Vec<StatusSlot> = Vec::new();
        let mut i: usize = 0;
        while i < self.slots.len()
            invariant
                i <= self.slots@.len(),
                slots@ =~= self.slots@.subrange(0, i as int),
            decreases self.slots@.len() - i,
        {
            slots.push(self.slots[i].clone());
            i += 1;
        }
        StatusBar {
            slots,
            separator: self.separator.clone(),
            show_separators: self.show_separators,
        }
    }
}

impl StatusBar {
    /// An empty bar with the default separator.
    pub fn new() -> (r: StatusBar)
        ensures
            r.slots@ == Seq::<StatusSlot>::empty(),
            r.separator@ == " | "@,
            r.show_separators,
    {
        StatusBar { slots: Vec::new(), separator: " | ".to_owned(), show_separators: true }
    }

    /// The position of the slot with this id, if present.
    fn find_index(&self, id: &str) -> (r: Option<usize>)
        ensures
            r matches Some(i) ==> spec_find(self.slots@, id@) == Some(i as int),
            r is None ==> spec_find(self.slots@, id@) is None,
    {
        proof {
            lemma_spec_find(self.slots@, id@);
        }
        let mut i: usize = 0;
        while i < self.slots.len()
            invariant
                i <= self.slots@.len(),
                forall|j: int| 0 <= j < i ==> self.slots@[j].id@ != id@,
            decreases self.slots@.len() - i,
        {
            if crate::text::str_eq(self.slots[i].id.as_str(), id) {
                proof {
                    lemma_find_here(self.slots@, id@, i as int);
                }
                return Some(i);
            }
            i += 1;
        }
        None
    }

    /// Add a slot, or replace the slot already carrying the same id.
    pub fn set_slot(&mut self, slot: StatusSlot)
        ensures
            final(self).separator == old(self).separator,
            final(self).show_separators == old(self).show_separators,
            spec_find(old(self).slots@, slot.id@) matches Some(i) ==> final(self).slots@ == old(
                self,
            ).slots@.update(i, slot),
            spec_find(old(self).slots@, slot.id@) is None ==> final(self).slots@ == old(
                self,
            ).slots@.push(slot),
    {
        let idx = self.find_index(slot.id.as_str());
        proof {
            lemma_spec_find(self.slots@, slot.id@);
        }
        match idx {
            Some(i) => {
                self.slots.set(i, slot);
            },
            None => {
                self.slots.push(slot);
            },
        }
    }

    /// Remove the slot with this id, if present.
    pub fn remove_slot(&mut self, id: &str)
        ensures
            final(self).separator == old(self).separator,
            final(self).show_separators == old(self).show_separators,
            spec_find(old(self).slots@, id@) matches Some(i) ==> final(self).slots@ == old(
                self,
            ).slots@.remove(i),
            spec_find(old(self).slots@, id@) is None ==> final(self).slots@ == old(self).slots@,
    {
        let idx = self.find_index(id);
        match idx {
            Some(i) => {
                proof {
                    lemma_spec_find(self.slots@, id@);
                }
                self.slots.remove(i);
            },
            None => (),
        }
    }

    /// A read-only view of the slot with this id.
    pub fn get_slot(&self, id: &str) -> (r: Option<&StatusSlot>)
        ensures
            spec_find(self.slots@, id@) matches Some(i) ==> r matches Some(s) && *s
                == self.slots@[i],
            spec_find(self.slots@, id@) is None ==> r is None,
    {
        let idx = self.find_index(id);
        proof {
            lemma_spec_find(self.slots@, id@);
        }
        match idx {
            Some(i) => Some(&self.slots[i]),
            None => None,
        }
    }

    /// How many slots the bar holds.
    pub fn slot_count(&self) -> (r: usize)
        ensures
            r == self.slots@.len(),
    {
        self.slots.len()
    }

    /// Hide the slot with this id; a missing id changes nothing.
    pub fn hide_slot(&mut self, id: &str)
        ensures
            final(self).separator == old(self).separator,
            final(self).show_separators == old(self).show_separators,
            spec_find(old(self).slots@, id@) matches Some(i) ==> final(self).slots@ == old(
                self,
            ).slots@.update(i, StatusSlot { visible: false, ..old(self).slots@[i] }),
            spec_find(old(self).slots@, id@) is None ==> final(self).slots@ == old(self).slots@,
    {
        let idx = self.find_index(id);
        match idx {
            Some(i) => {
                proof {
                    lemma_spec_find(self.slots@, id@);
                }
                let mut slot = self.slots[i].clone();
                slot.visible = false;
                self.slots.set(i, slot);
            },
            None => (),
        }
    }

    /// Show the slot with this id; a missing id changes nothing.
    pub fn show_slot(&mut self, id: &str)
        ensures
            final(self).separator == old(self).separator,
            final(self).show_separators == old(self).show_separators,
            spec_find(old(self).slots@, id@) matches Some(i) ==> final(self).slots@ == old(
                self,
            ).slots@.update(i, StatusSlot { visible: true, ..old(self).slots@[i] }),
            spec_find(old(self).slots@, id@) is None ==> final(self).slots@ == old(self).slots@,
    {
        let idx = self.find_index(id);
        match idx {
            Some(i) => {
                proof {
                    lemma_spec_find(self.slots@, id@);
                }
                let mut slot = self.slots[i].clone();
                slot.visible = true;
                self.slots.set(i, slot);
            },
            None => (),
        }
    }

    /// Replace the content of the slot with this id; a missing id changes
    /// nothing.
    pub fn update_slot_content(&mut self, id: &str, content: String)
        ensures
            final(self).separator == old(self).separator,
            final(self).show_separators == old(self).show_separators,
            spec_find(old(self).slots@, id@) matches Some(i) ==> final(self).slots@ == old(
                self,
            ).slots@.update(i, StatusSlot { content, ..old(self).slots@[i] }),
            spec_find(old(self).slots@, id@) is None ==> final(self).slots@ == old(self).slots@,
    {
        let idx = self.find_index(id);
        match idx {
            Some(i) => {
                proof {
                    lemma_spec_find(self.slots@, id@);
                }
                let mut slot = self.slots[i].clone();
                slot.content = content;
                self.slots.set(i, slot);
            },
            None => (),
        }
    }

    /// The same bar with another separator string.
    pub fn with_separator(self, separator: &str) -> (r: StatusBar)
        ensures
            r.slots@ == self.slots@,
            r.separator@ == separator@,
            r.show_separators == self.show_separators,
    {
        StatusBar { separator: separator.to_owned(), ..self }
    }

    /// The same bar with separators switched on or off.
    pub fn with_separators(self, show_separators: bool) -> (r: StatusBar)
        ensures
            r.slots@ == self.slots@,
            r.separator == self.separator,
            r.show_separators == show_separators,
    {
        StatusBar { show_separators, ..self }
    }

    /// The visible slots grouped by alignment, each group ordered by
    /// descending priority with insertion order kept among equal
    /// priorities; together the three groups hold exactly the visible
    /// slots.
    pub fn get_organized_slots(&self) -> (r: (Vec<StatusSlot>, Vec<StatusSlot>, Vec<StatusSlot>))
        ensures
            r.0@ == priority_ordered(self.slots@.filter(visible_with(SlotAlignment::Left)), 255),
            r.1@ == priority_ordered(
                self.slots@.filter(visible_with(SlotAlignment::Center)),
                255,
            ),
            r.2@ == priority_ordered(self.slots@.filter(visible_with(SlotAlignment::Right)), 255),
            sorted_desc(r.0@),
            sorted_desc(r.1@),
            sorted_desc(r.2@),
            r.0@.to_multiset() == self.slots@.filter(visible_with(SlotAlignment::Left)).to_multiset(),
            r.1@.to_multiset() == self.slots@.filter(
                visible_with(SlotAlignment::Center),
            ).to_multiset(),
            r.2@.to_multiset() == self.slots@.filter(
                visible_with(SlotAlignment::Right),
            ).to_multiset(),
    {
        let left = sort_by_priority(self.filter_group(SlotAlignment::Left));
        let center = sort_by_priority(self.filter_group(SlotAlignment::Center));
        let right = sort_by_priority(self.filter_group(SlotAlignment::Right));
        (left, center, right)
    }

    /// The visible slots of one alignment, in insertion order.
    fn filter_group(&self, alignment: SlotAlignment) -> (r: Vec<StatusSlot>)
        ensures
            r@ == self.slots@.filter(visible_with(alignment)),
    {
        let mut out: Vec<StatusSlot> = Vec::new();
        let mut i: usize = 0;
        proof {
            reveal_with_fuel(Seq::filter, 2);
            assert(self.slots@.take(0) =~= Seq::<StatusSlot>::empty());
            assert(Seq::<StatusSlot>::empty().filter(visible_with(alignment)) == Seq::<
                StatusSlot,
            >::empty());
        }
        while i < self.slots.len()
            invariant
                i <= self.slots@.len(),
                out@ == self.slots@.take(i as int).filter(visible_with(alignment)),
            decreases self.slots@.len() - i,
        {
            let s = self.slots[i].clone();
            proof {
                reveal_with_fuel(Seq::filter, 2);
                assert(self.slots@.take(i as int + 1).drop_last() =~= self.slots@.take(i as int));
                assert(self.slots@.take(i as int + 1).last() == self.slots@[i as int]);
            }
            let is_match = s.visible && match (s.alignment, alignment) {
                (SlotAlignment::Left, SlotAlignment::Left) => true,
                (SlotAlignment::Center, SlotAlignment::Center) => true,
                (SlotAlignment::Right, SlotAlignment::Right) => true,
                _ => false,
            };
            if is_match {
                out.push(s);
            }
            proof {
                reveal_with_fuel(Seq::filter, 2);
                assert(out@ == self.slots@.take(i as int + 1).filter(visible_with(alignment)));
            }
            i += 1;
        }
        proof {
            assert(self.slots@.take(self.slots@.len() as int) =~= self.slots@);
        }
        out
    }
}

impl Default for StatusBar {
    /// Same as an empty new bar.
    fn default() -> (r: StatusBar)
        ensures
            r.slots@ == Seq::<StatusSlot>::empty(),
            r.separator@ == " | "@,
            r.show_separators,
    {
        StatusBar::new()
    }
}

/// `spec_find` hits position `i` when everything before differs.
proof fn lemma_find_here(slots: Seq<StatusSlot>, id: Seq<char>, i: int)
    requires
        0 <= i < slots.len(),
        slots[i].id@ == id,
        forall|j: int| 0 <= j < i ==> slots[j].id@ != id,
    ensures
        spec_find(slots, id) == Some(i),
    decreases i,
{
    if i > 0 {
        lemma_find_here(slots.drop_first(), id, i - 1);
    }
}

/// Slots carrying exactly this priority.
pub open spec fn with_priority_level(p: int) -> spec_fn(StatusSlot) -> bool {
    |s: StatusSlot| s.priority as int == p
}

/// The slots reordered by descending priority with insertion order kept
/// among equal priorities: for each level from `p` down to zero, the
/// slots of that level in their original order.
pub open spec fn priority_ordered(input: Seq<StatusSlot>, p: int) -> Seq<StatusSlot>
    decreases p + 1,
{
    if p < 0 {
        Seq::empty()
    } else {
        input.filter(with_priority_level(p)) + priority_ordered(input, p - 1)
    }
}

/// The ordering emits only slots at or below its level, in descending
/// priority order.
proof fn lemma_priority_ordered_sorted(input: Seq<StatusSlot>, p: int)
    ensures
        sorted_desc(priority_ordered(input, p)),
        forall|i: int| 0 <= i < priority_ordered(input, p).len() ==> (#[trigger] priority_ordered(
            input,
            p,
        )[i]).priority <= p,
    decreases p + 1,
{
    if p >= 0 {
        lemma_priority_ordered_sorted(input, p - 1);
        let head = input.filter(with_priority_level(p));
        let tail = priority_ordered(input, p - 1);
        let whole = priority_ordered(input, p);
        input.filter_lemma(with_priority_level(p));
        assert(whole == head + tail);
        assert forall|i: int| 0 <= i < whole.len() implies (#[trigger] whole[i]).priority <= p by {
            if i < head.len() {
                assert(with_priority_level(p)(head[i]));
            } else {
                assert(whole[i] == tail[i - head.len()]);
            }
        }
        assert forall|i: int, j: int| 0 <= i < j < whole.len() implies whole[i].priority
            >= whole[j].priority by {
            if i < head.len() {
                assert(with_priority_level(p)(head[i]));
            } else {
                assert(whole[i] == tail[i - head.len()]);
                assert(whole[j] == tail[j - head.len()]);
            }
        }
    }
}

/// Filtering keeps exactly the matching copies of each slot.
proof fn lemma_filter_count(s: Seq<StatusSlot>, pred: spec_fn(StatusSlot) -> bool, x: StatusSlot)
    ensures
        s.filter(pred).to_multiset().count(x) == if pred(x) {
            s.to_multiset().count(x)
        } else {
            0
        },
    decreases s.len(),
{
    broadcast use vstd::seq_lib::group_to_multiset_ensures;

    reveal(Seq::filter);
    if s.len() > 0 {
        lemma_filter_count(s.drop_last(), pred, x);
        assert(s.drop_last().push(s.last()) =~= s);
        assert(s.drop_last().push(s.last()).to_multiset() == s.drop_last().to_multiset().insert(
            s.last(),
        ));
        if pred(s.last()) {
            assert(s.filter(pred) == s.drop_last().filter(pred).push(s.last()));
            assert(s.drop_last().filter(pred).push(s.last()).to_multiset() == s.drop_last().filter(
                pred,
            ).to_multiset().insert(s.last()));
        }
    }
}

/// The ordering keeps exactly the copies of each slot whose priority its
/// level covers.
proof fn lemma_priority_ordered_count(input: Seq<StatusSlot>, p: int, x: StatusSlot)
    ensures
        priority_ordered(input, p).to_multiset().count(x) == if x.priority <= p {
            input.to_multiset().count(x)
        } else {
            0
        },
    decreases p + 1,
{
    if p >= 0 {
        lemma_priority_ordered_count(input, p - 1, x);
        lemma_filter_count(input, with_priority_level(p), x);
        let head = input.filter(with_priority_level(p));
        let tail = priority_ordered(input, p - 1);
        vstd::seq_lib::lemma_multiset_commutative(head, tail);
        assert(priority_ordered(input, p) == head + tail);
        assert((head + tail).to_multiset() == head.to_multiset().add(tail.to_multiset()));
        assert(head.to_multiset().add(tail.to_multiset()).count(x) == head.to_multiset().count(x)
            + tail.to_multiset().count(x));
        assert(with_priority_level(p)(x) == (x.priority as int == p));
    } else {
        broadcast use vstd::seq_lib::group_to_multiset_ensures;

        assert(priority_ordered(input, p) == Seq::<StatusSlot>::empty());
        assert(!Seq::<StatusSlot>::empty().contains(x));
        assert(Seq::<StatusSlot>::empty().to_multiset().count(x) == 0);
    }
}

/// The input's slots reordered by descending priority, insertion order
/// kept among equal priorities.
fn sort_by_priority(input: Vec<StatusSlot>) -> (r: Vec<StatusSlot>)
    ensures
        r@ == priority_ordered(input@, 255),
        sorted_desc(r@),
        r@.to_multiset() == input@.to_multiset(),
{
    let mut out: Vec<StatusSlot> = Vec::new();
    let mut level: usize = 256;
    proof {
        assert(priority_ordered(input@, -1) == Seq::<StatusSlot>::empty());
        assert(out@ + priority_ordered(input@, 255) =~= priority_ordered(input@, 255));
    }
    while level > 0
        invariant
            level <= 256,
            out@ + priority_ordered(input@, level as int - 1) =~= priority_ordered(input@, 255),
        decreases level,
    {
        level -= 1;
        let pr = level as u8;
        let ghost out0 = out@;
        let mut i: usize = 0;
        proof {
            reveal_with_fuel(Seq::filter, 2);
            assert(input@.take(0) =~= Seq::<StatusSlot>::empty());
            assert(out@ =~= out0 + input@.take(0).filter(with_priority_level(level as int)));
        }
        while i < input.len()
            invariant
                i <= input@.len(),
                level < 256,
                pr == level as u8,
                out@ =~= out0 + input@.take(i as int).filter(with_priority_level(level as int)),
            decreases input@.len() - i,
        {
            proof {
                reveal_with_fuel(Seq::filter, 2);
                assert(input@.take(i as int + 1).drop_last() =~= input@.take(i as int));
                assert(input@.take(i as int + 1).last() == input@[i as int]);
            }
            if input[i].priority == pr {
                out.push(input[i].clone());
            }
            proof {
                reveal_with_fuel(Seq::filter, 2);
                assert(out@ =~= out0 + input@.take(i as int + 1).filter(
                    with_priority_level(level as int),
                ));
            }
            i += 1;
        }
        proof {
            assert(input@.take(input@.len() as int) =~= input@);
            assert(out@ =~= out0 + input@.filter(with_priority_level(level as int)));
            assert(priority_ordered(input@, level as int) == input@.filter(
                with_priority_level(level as int),
            ) + priority_ordered(input@, level as int - 1));
            assert(out@ + priority_ordered(input@, level as int - 1) =~= priority_ordered(
                input@,
                255,
            ));
        }
    }
    proof {
        assert(priority_ordered(input@, -1) == Seq::<StatusSlot>::empty());
        assert(out@ =~= priority_ordered(input@, 255));
        lemma_priority_ordered_sorted(input@, 255);
        assert forall|x: StatusSlot| out@.to_multiset().count(x) == input@.to_multiset().count(
            x,
        ) by {
            lemma_priority_ordered_count(input@, 255, x);
        }
        assert(out@.to_multiset() =~= input@.to_multiset());
    }
    out
}

} // verus!
