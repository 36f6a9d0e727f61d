use vstd::prelude::*;

verus! {

/// A button of a pointer input device, such as a mouse or stylus pen.
///
/// The numbered buttons exist to support pointer devices with large
/// numbers of buttons; such devices top out around 32 buttons.
#[derive(Clone, Copy, Debug, PartialEq, Eq, Hash, Structural)]
pub enum PointerButton {
    /// Primary button, commonly the left mouse button, touch contact, pen contact.
    Primary,
    /// Secondary button, commonly the right mouse button, pen barrel button.
    Secondary,
    /// Auxiliary button, commonly the middle mouse button.
    Auxiliary,
    /// X1 (back) mouse button.
    X1,
    /// X2 (forward) mouse button.
    X2,
    /// Pen eraser button.
    PenEraser,
    /// Button 7.
    B7,
    /// Button 8.
    B8,
    /// Button 9.
    B9,
    /// Button 10.
    B10,
    /// Button 11.
    B11,
    /// Button 12.
    B12,
    /// Button 13.
    B13,
    /// Button 14.
    B14,
    /// Button 15.
    B15,
    /// Button 16.
    B16,
    /// Button 17.
    B17,
    /// Button 18.
    B18,
    /// Button 19.
    B19,
    /// Button 20.
    B20,
    /// Button 21.
    B21,
    /// Button 22.
    B22,
    /// Button 23.
    B23,
    /// Button 24.
    B24,
    /// Button 25.
    B25,
    /// Button 26.
    B26,
    /// Button 27.
    B27,
    /// Button 28.
    B28,
    /// Button 29.
    B29,
    /// Button 30.
    B30,
    /// Button 31.
    B31,
    /// Button 32.
    B32,
}

/// A set of [`PointerButton`]s.
///
/// Viewed as the mathematical set of buttons it contains; the order and
/// multiplicity of the backing storage are not observable.
#[derive(Clone, Debug)]
pub struct PointerButtons {
    items: Vec<PointerButton>,
}

impl View for PointerButtons {
    type V = Set<PointerButton>;

    closed spec fn view(&self) -> Set<PointerButton> {
        self.items@.to_set()
    }
}

impl PointerButtons {
    /// Create a new empty set.
    pub fn new() -> (r: Self)
        ensures
            r@ == Set::<PointerButton>::empty(),
    {
        let r = PointerButtons { items: Vec::new() };
        proof {
            assert(r@ =~= Set::<PointerButton>::empty());
        }
        r
    }

    /// Returns `true` if the `button` is in the set.
    pub fn contains(&self, button: PointerButton) -> (r: bool)
        ensures
            r == self@.contains(button),
    {
        let mut i: usize = 0;
        while i < self.items.len()
            invariant
                0 <= i <= self.items.len(),
                forall|j: int| 0 <= j < i ==> self.items@[j] != button,
            decreases self.items.len() - i,
        {
            if self.items[i] == button {
                proof {
                    assert(self.items@.contains(button));
                }
                return true;
            }
            i = i + 1;
        }
        proof {
            assert(!self.items@.contains(button));
        }
        false
    }

    /// Add the `button` to the set.
    pub fn insert(&mut self, button: PointerButton)
        ensures
            final(self)@ == old(self)@.insert(button),
    {
        if !self.contains(button) {
            self.items.push(button);
            proof {
                assert forall|b: PointerButton| #[trigger] self.items@.contains(b)
                    implies old(self).items@.contains(b) || b == button
                by {
                    let j = choose|j: int| 0 <= j < self.items@.len() && self.items@[j] == b;
                    if j < old(self).items@.len() {
                        assert(old(self).items@[j] == b);
                    }
                }
                assert forall|b: PointerButton| old(self).items@.contains(b)
                    implies #[trigger] self.items@.contains(b)
                by {
                    let j = choose|j: int| 0 <= j < old(self).items@.len()
                        && old(self).items@[j] == b;
                    assert(self.items@[j] == b);
                }
                assert(self.items@[old(self).items@.len() as int] == button);
                assert(self.items@.contains(button));
                assert(self@ =~= old(self)@.insert(button));
            }
        } else {
            proof {
                assert(self@.contains(button));
                assert(self@ =~= old(self)@.insert(button));
            }
        }
    }

    /// Remove the `button` from the set.
    pub fn remove(&mut self, button: PointerButton)
        ensures
            final(self)@ == old(self)@.remove(button),
    {
        let mut kept: Vec<PointerButton> = Vec::new();
        let mut i: usize = 0;
        while i < self.items.len()
            invariant
                0 <= i <= self.items.len(),
                forall|b: PointerButton| #[trigger] kept@.contains(b)
                    == (self.items@.subrange(0, i as int).contains(b) && b != button),
            decreases self.items.len() - i,
        {
            let ghost prefix = self.items@.subrange(0, i as int);
            let ghost next_prefix = self.items@.subrange(0, i as int + 1);
            proof {
                assert(next_prefix =~= prefix.push(self.items@[i as int]));
                assert forall|b: PointerButton| #[trigger] next_prefix.contains(b)
                    implies prefix.contains(b) || b == self.items@[i as int]
                by {
                    let j = choose|j: int| 0 <= j < next_prefix.len() && next_prefix[j] == b;
                    if j < prefix.len() {
                        assert(prefix[j] == b);
                    }
                }
                assert forall|b: PointerButton| prefix.contains(b)
                    implies #[trigger] next_prefix.contains(b)
                by {
                    let j = choose|j: int| 0 <= j < prefix.len() && prefix[j] == b;
                    assert(next_prefix[j] == b);
                }
            }
            if self.items[i] != button {
                let ghost kept_before = kept@;
                kept.push(self.items[i]);
                proof {
                    assert forall|b: PointerButton| #[trigger] kept@.contains(b)
                        implies kept_before.contains(b) || b == self.items@[i as int]
                    by {
                        let j = choose|j: int| 0 <= j < kept@.len() && kept@[j] == b;
                        if j < kept_before.len() {
                            assert(kept_before[j] == b);
                        }
                    }
                    assert forall|b: PointerButton| kept_before.contains(b)
                        implies #[trigger] kept@.contains(b)
                    by {
                        let j = choose|j: int| 0 <= j < kept_before.len()
                            && kept_before[j] == b;
                        assert(kept@[j] == b);
                    }
                    assert(kept@[kept_before.len() as int] == self.items@[i as int]);
                    assert(kept@.contains(self.items@[i as int]));
                    assert(next_prefix[i as int] == self.items@[i as int]);
                    assert(next_prefix.contains(self.items@[i as int]));
                }
            } else {
                proof {
                    assert(next_prefix[i as int] == self.items@[i as int]);
                    assert(next_prefix.contains(self.items@[i as int]));
                }
            }
            i = i + 1;
        }
        proof {
            assert(self.items@.subrange(0, self.items@.len() as int) =~= self.items@);
        }
        self.items = kept;
        proof {
            assert(self@ =~= old(self)@.remove(button));
        }
    }

    /// Returns `true` if the set is empty.
    pub fn is_empty(&self) -> (r: bool)
        ensures
            r == (self@ == Set::<PointerButton>::empty()),
            r == !(exists|b: PointerButton| self@.contains(b)),
    {
        let r = self.items.len() == 0;
        proof {
            if self.items@.len() == 0 {
                assert(self@ =~= Set::<PointerButton>::empty());
            } else {
                assert(self.items@.contains(self.items@[0]));
                assert(self@.contains(self.items@[0]));
            }
        }
        r
    }
}

impl Default for PointerButtons {
    /// An empty set.
    fn default() -> (r: Self)
        ensures
            r@ == Set::<PointerButton>::empty(),
    {
        PointerButtons::new()
    }
}

} // verus!
