//! The closed set of gestures and their canonical names.

use vstd::prelude::*;

verus! {

/// A recognized gesture.
#[derive(Debug, Clone, Copy, PartialEq, Eq, Hash, Structural)]
pub enum GestureType {
    SwipeLeft,
    SwipeRight,
    SwipeUp,
    SwipeDown,
    Tap,
    DoubleTap,
    LongPress,
    PinchIn,
    PinchOut,
}

/// The error of parsing a text that names no gesture.
#[derive(Debug, Clone, Copy, PartialEq, Eq, Structural)]
pub struct UnknownGesture;

impl GestureType {
    /// The canonical lower-case name, as used for display and as the key of
    /// a gesture in a configuration.
    pub open spec fn spec_name(self) -> Seq<char> {
        match self {
            GestureType::SwipeLeft => "swipe_left"@,
            GestureType::SwipeRight => "swipe_right"@,
            GestureType::SwipeUp => "swipe_up"@,
            GestureType::SwipeDown => "swipe_down"@,
            GestureType::Tap => "tap"@,
            GestureType::DoubleTap => "double_tap"@,
            GestureType::LongPress => "long_press"@,
            GestureType::PinchIn => "pinch_in"@,
            GestureType::PinchOut => "pinch_out"@,
        }
    }

    /// The canonical name as a static text.
    pub open spec fn spec_static_name(self) -> &'static str {
        match self {
            GestureType::SwipeLeft => "swipe_left",
            GestureType::SwipeRight => "swipe_right",
            GestureType::SwipeUp => "swipe_up",
            GestureType::SwipeDown => "swipe_down",
            GestureType::Tap => "tap",
            GestureType::DoubleTap => "double_tap",
            GestureType::LongPress => "long_press",
            GestureType::PinchIn => "pinch_in",
            GestureType::PinchOut => "pinch_out",
        }
    }

    /// The gesture that a text names, if any.
    pub open spec fn spec_from_name(text: Seq<char>) -> Option<GestureType> {
        if text == GestureType::SwipeLeft.spec_name() {
            Some(GestureType::SwipeLeft)
        } else if text == GestureType::SwipeRight.spec_name() {
            Some(GestureType::SwipeRight)
        } else if text == GestureType::SwipeUp.spec_name() {
            Some(GestureType::SwipeUp)
        } else if text == GestureType::SwipeDown.spec_name() {
            Some(GestureType::SwipeDown)
        } else if text == GestureType::Tap.spec_name() {
            Some(GestureType::Tap)
        } else if text == GestureType::DoubleTap.spec_name() {
            Some(GestureType::DoubleTap)
        } else if text == GestureType::LongPress.spec_name() {
            Some(GestureType::LongPress)
        } else if text == GestureType::PinchIn.spec_name() {
            Some(GestureType::PinchIn)
        } else if text == GestureType::PinchOut.spec_name() {
            Some(GestureType::PinchOut)
        } else {
            None
        }
    }

    /// All nine gestures, in declaration order.
    pub open spec fn spec_all() -> Seq<GestureType> {
        seq![
            GestureType::SwipeLeft,
            GestureType::SwipeRight,
            GestureType::SwipeUp,
            GestureType::SwipeDown,
            GestureType::Tap,
            GestureType::DoubleTap,
            GestureType::LongPress,
            GestureType::PinchIn,
            GestureType::PinchOut,
        ]
    }

    /// The canonical name of the gesture.
    pub fn name(&self) -> (text: &'static str)
        ensures
            text@ == self.spec_name(),
            text == self.spec_static_name(),
    {
        match self {
            GestureType::SwipeLeft => "swipe_left",
            GestureType::SwipeRight => "swipe_right",
            GestureType::SwipeUp => "swipe_up",
            GestureType::SwipeDown => "swipe_down",
            GestureType::Tap => "tap",
            GestureType::DoubleTap => "double_tap",
            GestureType::LongPress => "long_press",
            GestureType::PinchIn => "pinch_in",
            GestureType::PinchOut => "pinch_out",
        }
    }

    /// The canonical name as an owned text.
    pub fn to_string(&self) -> (text: String)
        ensures
            text@ == self.spec_name(),
    {
        self.name().to_owned()
    }

    /// All nine gestures, in declaration order.
    pub fn all() -> (list: Vec<GestureType>)
        ensures
            list@ == GestureType::spec_all(),
    {
        let list = vec![
            GestureType::SwipeLeft,
            GestureType::SwipeRight,
            GestureType::SwipeUp,
            GestureType::SwipeDown,
            GestureType::Tap,
            GestureType::DoubleTap,
            GestureType::LongPress,
            GestureType::PinchIn,
            GestureType::PinchOut,
        ];
        assert(list@ =~= GestureType::spec_all());
        list
    }

    /// Finds the gesture with the given canonical name. The match is exact:
    /// no case folding and no trimming.
    pub fn from_name(text: &str) -> (found: Option<GestureType>)
        ensures
            found == GestureType::spec_from_name(text@),
            found matches Some(g) ==> g.spec_name() == text@,
            found is None ==> forall|g: GestureType| g.spec_name() != text@,
    {
        let wanted = text.to_owned();
        let all = GestureType::all();
        let mut i: usize = 0;
        while i < all.len()
            invariant
                i <= all.len(),
                all@ == GestureType::spec_all(),
                wanted@ == text@,
                forall|j: int| 0 <= j < i ==> all@[j].spec_name() != text@,
            decreases all.len() - i,
        {
            let candidate = all[i];
            if candidate.name().to_owned() == wanted {
                return Some(candidate);
            }
            i += 1;
        }
        assert forall|g: GestureType| g.spec_name() != text@ by {
            let k = choose|k: int| 0 <= k < 9 && GestureType::spec_all()[k] == g;
            assert(GestureType::spec_all()[k] == g) by {
                lemma_all_complete(g);
            }
        }
        None
    }
}

/// Every gesture occurs in the list of all gestures.
pub proof fn lemma_all_complete(g: GestureType)
    ensures
        exists|k: int| 0 <= k < 9 && GestureType::spec_all()[k] == g,
        GestureType::spec_all().len() == 9,
{
    let all = GestureType::spec_all();
    match g {
        GestureType::SwipeLeft => assert(all[0] == g),
        GestureType::SwipeRight => assert(all[1] == g),
        GestureType::SwipeUp => assert(all[2] == g),
        GestureType::SwipeDown => assert(all[3] == g),
        GestureType::Tap => assert(all[4] == g),
        GestureType::DoubleTap => assert(all[5] == g),
        GestureType::LongPress => assert(all[6] == g),
        GestureType::PinchIn => assert(all[7] == g),
        GestureType::PinchOut => assert(all[8] == g),
    }
}

/// No two gestures share a name, so a name identifies its gesture.
pub proof fn lemma_names_distinct(a: GestureType, b: GestureType)
    ensures
        a.spec_name() == b.spec_name() <==> a == b,
{
    reveal_strlit("swipe_left");
    reveal_strlit("swipe_right");
    reveal_strlit("swipe_up");
    reveal_strlit("swipe_down");
    reveal_strlit("tap");
    reveal_strlit("double_tap");
    reveal_strlit("long_press");
    reveal_strlit("pinch_in");
    reveal_strlit("pinch_out");
    let x = a.spec_name();
    let y = b.spec_name();
    if a != b && x == y {
        assert(x.len() == y.len());
        assert(x[0] == y[0]);
        assert(x[6] == y[6]);
    }
}

/// Looking a gesture's own name up gives the gesture back.
pub proof fn lemma_name_round_trip(g: GestureType)
    ensures
        GestureType::spec_from_name(g.spec_name()) == Some(g),
{
    lemma_names_distinct(g, GestureType::SwipeLeft);
    lemma_names_distinct(g, GestureType::SwipeRight);
    lemma_names_distinct(g, GestureType::SwipeUp);
    lemma_names_distinct(g, GestureType::SwipeDown);
    lemma_names_distinct(g, GestureType::Tap);
    lemma_names_distinct(g, GestureType::DoubleTap);
    lemma_names_distinct(g, GestureType::LongPress);
    lemma_names_distinct(g, GestureType::PinchIn);
    lemma_names_distinct(g, GestureType::PinchOut);
}

impl std::str::FromStr for GestureType {
    type Err = UnknownGesture;

    fn from_str(text: &str) -> (parsed: Result<GestureType, UnknownGesture>)
        ensures
            parsed == match GestureType::spec_from_name(text@) {
                Some(g) => Ok::<GestureType, UnknownGesture>(g),
                None => Err(UnknownGesture),
            },
    {
        match GestureType::from_name(text) {
            Some(g) => Ok(g),
            None => Err(UnknownGesture),
        }
    }
}

impl From<GestureType> for &'static str {
    fn from(g: GestureType) -> (text: &'static str) {
        g.name()
    }
}

impl vstd::std_specs::convert::FromSpecImpl<GestureType> for &'static str {
    open spec fn obeys_from_spec() -> bool {
        true
    }

    open spec fn from_spec(g: GestureType) -> &'static str {
        g.spec_static_name()
    }
}

} // verus!
