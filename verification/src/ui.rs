use vstd::prelude::*;

verus! {

/// Whether an element is meant to be shown.
#[derive(Clone, Copy, Debug, PartialEq, Eq, Structural)]
pub enum Visibility {
    /// As the parent is.
    Inherited,
    /// Never shown.
    Hidden,
    /// Always shown.
    Visible,
}

/// The layout style of a UI element, as the bytes of its encoding. Two styles
/// are equal exactly when their encodings are.
#[derive(Clone, Debug, PartialEq, Eq)]
pub struct Style {
    pub encoding: Vec<u8>,
}

impl View for Style {
    type V = Seq<u8>;

    open spec fn view(&self) -> Seq<u8> {
        self.encoding@
    }
}

impl Style {
    /// The style with the given encoding.
    pub fn new(encoding: Vec<u8>) -> (style: Style)
        ensures
            style@ == encoding@,
    {
        Style { encoding }
    }

    /// A second style with the same encoding.
    pub fn duplicate(&self) -> (copy: Style)
        ensures
            copy@ == self@,
    {
        let mut encoding: Vec<u8> = Vec::new();
        let mut i: usize = 0;
        while i < self.encoding.len()
            invariant
                i <= self.encoding.len(),
                encoding@ == self.encoding@.take(i as int),
            decreases self.encoding.len() - i,
        {
            encoding.push(self.encoding[i]);
            assert(self.encoding@.take(i + 1) =~= self.encoding@.take(i as int).push(
                self.encoding@[i as int],
            ));
            i += 1;
        }
        assert(self.encoding@.take(i as int) =~= self.encoding@);
        Style { encoding }
    }

    /// Whether the two styles have the same encoding.
    pub fn is_same(&self, other: &Style) -> (equal: bool)
        ensures
            equal == (self@ == other@),
    {
        if self.encoding.len() != other.encoding.len() {
            return false;
        }
        let mut i: usize = 0;
        while i < self.encoding.len()
            invariant
                i <= self.encoding.len(),
                self.encoding.len() == other.encoding.len(),
                self.encoding@.take(i as int) == other.encoding@.take(i as int),
            decreases self.encoding.len() - i,
        {
            if self.encoding[i] != other.encoding[i] {
                assert(self.encoding@[i as int] != other.encoding@[i as int]);
                return false;
            }
            assert(self.encoding@.take(i + 1) =~= self.encoding@.take(i as int).push(
                self.encoding@[i as int],
            ));
            assert(other.encoding@.take(i + 1) =~= other.encoding@.take(i as int).push(
                other.encoding@[i as int],
            ));
            i += 1;
        }
        assert(self.encoding@.take(i as int) =~= self.encoding@);
        assert(other.encoding@.take(i as int) =~= other.encoding@);
        true
    }
}

} // verus!
