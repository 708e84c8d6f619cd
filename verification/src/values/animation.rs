//! Specified values of the properties of animations and transitions.

use vstd::prelude::*;
use crate::values::ident::{Atom, CustomIdent, DashedIdent, KeyframesName};
use crate::values::keyword::{eq_ignore_ascii_case, matches_keyword};
use crate::values::serialize::{css_identifier, serialize_atom_identifier};
use vstd::string::StringExecFns;

verus! {

/// A value of `transition-behavior`.
#[derive(Clone, Copy, Debug, PartialEq, Eq, Structural)]
pub enum TransitionBehavior {
    /// Transitions start for properties that can be interpolated only.
    Normal,
    /// Transitions start for discrete properties too.
    AllowDiscrete,
}

impl TransitionBehavior {
    /// The initial value, `normal`.
    pub fn normal() -> (behavior: TransitionBehavior)
        ensures
            behavior == TransitionBehavior::Normal,
    {
        TransitionBehavior::Normal
    }

    /// Whether this is `normal`.
    pub fn is_normal(&self) -> (normal: bool)
        ensures
            normal == (*self == TransitionBehavior::Normal),
    {
        match *self {
            TransitionBehavior::Normal => true,
            TransitionBehavior::AllowDiscrete => false,
        }
    }
}

/// A value of `animation-name`: the name of a set of keyframes, or `none`.
#[derive(Debug, PartialEq, Eq, Hash)]
pub struct AnimationName(pub KeyframesName);

impl View for AnimationName {
    type V = Seq<char>;

    /// The characters of the name, none of them for `none`.
    open spec fn view(&self) -> Seq<char> {
        self.0@
    }
}

impl Clone for AnimationName {
    fn clone(&self) -> (copy: AnimationName)
        ensures
            copy@ == self@,
    {
        AnimationName(self.0.clone())
    }
}

impl AnimationName {
    /// The name of the animation as an atom, unless the value is `none`.
    pub fn as_atom(&self) -> (atom: Option<&Atom>)
        ensures
            self@.len() == 0 ==> atom is None,
            self@.len() > 0 ==> atom is Some && atom->0@ == self@,
    {
        if self.is_none() {
            return None;
        }
        Some(self.0.as_atom())
    }

    /// The value `none`.
    pub fn none() -> (name: AnimationName)
        ensures
            name@ == Seq::<char>::empty(),
    {
        AnimationName(KeyframesName::none())
    }

    /// Whether this is the value `none`.
    pub fn is_none(&self) -> (none: bool)
        ensures
            none == (self@.len() == 0),
    {
        self.0.is_none()
    }
}

/// A value of `animation-direction`.
#[derive(Clone, Copy, Debug, PartialEq, Eq, Structural)]
pub enum AnimationDirection {
    Normal,
    Reverse,
    Alternate,
    AlternateReverse,
}

impl AnimationDirection {
    /// The value that the identifier `ident` is a keyword of, if it is
    /// one.
    pub open spec fn keyword(ident: Seq<char>) -> Option<AnimationDirection> {
        if matches_keyword(ident, "normal"@) {
            Some(AnimationDirection::Normal)
        } else if matches_keyword(ident, "reverse"@) {
            Some(AnimationDirection::Reverse)
        } else if matches_keyword(ident, "alternate"@) {
            Some(AnimationDirection::Alternate)
        } else if matches_keyword(ident, "alternate-reverse"@) {
            Some(AnimationDirection::AlternateReverse)
        } else {
            None
        }
    }

    /// Reads a value from its keyword, whatever the case of its letters.
    pub fn from_ident(ident: &str) -> (value: Result<AnimationDirection, ()>)
        ensures
            value == match AnimationDirection::keyword(ident@) {
                Some(direction) => Ok::<AnimationDirection, ()>(direction),
                None => Err(()),
            },
    {
        if eq_ignore_ascii_case(ident, "normal") {
            Ok(AnimationDirection::Normal)
        } else if eq_ignore_ascii_case(ident, "reverse") {
            Ok(AnimationDirection::Reverse)
        } else if eq_ignore_ascii_case(ident, "alternate") {
            Ok(AnimationDirection::Alternate)
        } else if eq_ignore_ascii_case(ident, "alternate-reverse") {
            Ok(AnimationDirection::AlternateReverse)
        } else {
            Err(())
        }
    }

    /// Whether `name` is a keyword of `animation-direction`. The value
    /// `none` of a name is no keyword of it.
    pub fn match_keywords(name: &AnimationName) -> (matches: bool)
        ensures
            matches == (name@.len() > 0 && AnimationDirection::keyword(name@) is Some),
    {
        if let Some(atom) = name.as_atom() {
            return AnimationDirection::from_ident(atom.as_str()).is_ok();
        }
        false
    }
}

/// A value of `animation-play-state`.
#[derive(Clone, Copy, Debug, PartialEq, Eq, Structural)]
pub enum AnimationPlayState {
    Running,
    Paused,
}

impl AnimationPlayState {
    /// The value that the identifier `ident` is a keyword of, if it is
    /// one.
    pub open spec fn keyword(ident: Seq<char>) -> Option<AnimationPlayState> {
        if matches_keyword(ident, "running"@) {
            Some(AnimationPlayState::Running)
        } else if matches_keyword(ident, "paused"@) {
            Some(AnimationPlayState::Paused)
        } else {
            None
        }
    }

    /// Reads a value from its keyword, whatever the case of its letters.
    pub fn from_ident(ident: &str) -> (value: Result<AnimationPlayState, ()>)
        ensures
            value == match AnimationPlayState::keyword(ident@) {
                Some(state) => Ok::<AnimationPlayState, ()>(state),
                None => Err(()),
            },
    {
        if eq_ignore_ascii_case(ident, "running") {
            Ok(AnimationPlayState::Running)
        } else if eq_ignore_ascii_case(ident, "paused") {
            Ok(AnimationPlayState::Paused)
        } else {
            Err(())
        }
    }

    /// Whether `name` is a keyword of `animation-play-state`. The value
    /// `none` of a name is no keyword of it.
    pub fn match_keywords(name: &AnimationName) -> (matches: bool)
        ensures
            matches == (name@.len() > 0 && AnimationPlayState::keyword(name@) is Some),
    {
        if let Some(atom) = name.as_atom() {
            return AnimationPlayState::from_ident(atom.as_str()).is_ok();
        }
        false
    }
}

/// A value of `animation-fill-mode`.
#[derive(Clone, Copy, Debug, PartialEq, Eq, Structural)]
pub enum AnimationFillMode {
    /// The keyword `none`.
    NoFill,
    Forwards,
    Backwards,
    Both,
}

impl AnimationFillMode {
    /// The value that the identifier `ident` is a keyword of, if it is
    /// one.
    pub open spec fn keyword(ident: Seq<char>) -> Option<AnimationFillMode> {
        if matches_keyword(ident, "none"@) {
            Some(AnimationFillMode::NoFill)
        } else if matches_keyword(ident, "forwards"@) {
            Some(AnimationFillMode::Forwards)
        } else if matches_keyword(ident, "backwards"@) {
            Some(AnimationFillMode::Backwards)
        } else if matches_keyword(ident, "both"@) {
            Some(AnimationFillMode::Both)
        } else {
            None
        }
    }

    /// Reads a value from its keyword, whatever the case of its letters.
    pub fn from_ident(ident: &str) -> (value: Result<AnimationFillMode, ()>)
        ensures
            value == match AnimationFillMode::keyword(ident@) {
                Some(mode) => Ok::<AnimationFillMode, ()>(mode),
                None => Err(()),
            },
    {
        if eq_ignore_ascii_case(ident, "none") {
            Ok(AnimationFillMode::NoFill)
        } else if eq_ignore_ascii_case(ident, "forwards") {
            Ok(AnimationFillMode::Forwards)
        } else if eq_ignore_ascii_case(ident, "backwards") {
            Ok(AnimationFillMode::Backwards)
        } else if eq_ignore_ascii_case(ident, "both") {
            Ok(AnimationFillMode::Both)
        } else {
            Err(())
        }
    }

    /// Whether `name` is a keyword of `animation-fill-mode`. The value
    /// `none` of a name is the empty name and so no keyword; a name that
    /// is spelled `none` is one.
    pub fn match_keywords(name: &AnimationName) -> (matches: bool)
        ensures
            matches == (name@.len() > 0 && AnimationFillMode::keyword(name@) is Some),
    {
        if let Some(atom) = name.as_atom() {
            return AnimationFillMode::from_ident(atom.as_str()).is_ok();
        }
        false
    }
}

/// A value of `animation-composition`.
#[derive(Clone, Copy, Debug, PartialEq, Eq, Structural)]
pub enum AnimationComposition {
    Replace,
    Add,
    Accumulate,
}

/// The scroll container in `scroll()`: a `<scroller>`.
#[derive(Clone, Copy, Debug, PartialEq, Eq, Structural, Hash)]
pub enum Scroller {
    /// The nearest ancestor that is a scroll container. The default.
    Nearest,
    /// The viewport of the document.
    Root,
    /// The element's own principal box. Its keyword is `self`.
    SelfElement,
}

impl Scroller {
    /// Whether this is the default.
    pub fn is_default(&self) -> (default: bool)
        ensures
            default == (*self == Scroller::Nearest),
    {
        match *self {
            Scroller::Nearest => true,
            _ => false,
        }
    }
}

impl Default for Scroller {
    fn default() -> (scroller: Scroller)
        ensures
            scroller == Scroller::Nearest,
    {
        Scroller::Nearest
    }
}

/// The axis in `scroll()`, and a value of `scroll-timeline-axis` and
/// `view-timeline-axis`.
#[derive(Clone, Copy, Debug, PartialEq, Eq, Structural, Hash)]
pub enum ScrollAxis {
    /// The block axis of the scroll container. The default.
    Block,
    /// The inline axis of the scroll container.
    Inline,
    /// The horizontal axis of the scroll container.
    X,
    /// The vertical axis of the scroll container.
    Y,
}

impl ScrollAxis {
    /// Whether this is the default.
    pub fn is_default(&self) -> (default: bool)
        ensures
            default == (*self == ScrollAxis::Block),
    {
        match *self {
            ScrollAxis::Block => true,
            _ => false,
        }
    }
}

impl Default for ScrollAxis {
    fn default() -> (axis: ScrollAxis)
        ensures
            axis == ScrollAxis::Block,
    {
        ScrollAxis::Block
    }
}

/// The notation `scroll()`.
#[derive(Clone, Copy, Debug, PartialEq, Eq, Structural)]
pub struct ScrollFunction {
    /// The scroll container whose position drives the timeline.
    pub scroller: Scroller,
    /// The axis of scrolling that drives the timeline.
    pub axis: ScrollAxis,
}

/// A value of `scroll-timeline-name` and `view-timeline-name`: a dashed
/// identifier, or `none`, for which the empty identifier stands.
#[derive(Debug, PartialEq, Eq, Hash)]
pub struct TimelineName(pub DashedIdent);

impl View for TimelineName {
    type V = Seq<char>;

    /// The characters of the name, none of them for `none`.
    open spec fn view(&self) -> Seq<char> {
        self.0@
    }
}

impl Clone for TimelineName {
    fn clone(&self) -> (copy: TimelineName)
        ensures
            copy@ == self@,
    {
        TimelineName(self.0.clone())
    }
}

impl TimelineName {
    /// The value `none`.
    pub fn none() -> (name: TimelineName)
        ensures
            name@ == Seq::<char>::empty(),
    {
        TimelineName(DashedIdent::empty())
    }

    /// Whether this is the value `none`.
    pub fn is_none(&self) -> (none: bool)
        ensures
            none == (self@.len() == 0),
    {
        self.0.is_empty()
    }

    /// The value as a style sheet spells it: the keyword `none`, or the
    /// identifier.
    pub fn to_css_string(&self) -> (css: String)
        ensures
            css@ == if self@.len() == 0 {
                "none"@
            } else {
                css_identifier(self@)
            },
    {
        if self.is_none() {
            return String::from_str("none");
        }
        serialize_atom_identifier(&self.0.0)
    }
}

/// A value of `view-transition-name`.
#[derive(Clone, Debug, PartialEq, Eq, Hash)]
pub enum ViewTransitionName {
    /// The keyword `none`.
    NoName,
    /// The keyword `match-element`.
    MatchElement,
    /// A `<custom-ident>`.
    Ident(Atom),
}

/// A [`ViewTransitionName`] with its identifier as characters.
pub ghost enum ViewTransitionNameView {
    NoName,
    MatchElement,
    Ident(Seq<char>),
}

impl View for ViewTransitionName {
    type V = ViewTransitionNameView;

    open spec fn view(&self) -> ViewTransitionNameView {
        match self {
            ViewTransitionName::NoName => ViewTransitionNameView::NoName,
            ViewTransitionName::MatchElement => ViewTransitionNameView::MatchElement,
            ViewTransitionName::Ident(ident) => ViewTransitionNameView::Ident(ident@),
        }
    }
}

impl ViewTransitionName {
    /// The value `none`.
    pub fn none() -> (name: ViewTransitionName)
        ensures
            name@ == ViewTransitionNameView::NoName,
    {
        ViewTransitionName::NoName
    }

    /// The value as a style sheet spells it: one of the two keywords, or
    /// the identifier.
    pub fn to_css_string(&self) -> (css: String)
        ensures
            css@ == match self@ {
                ViewTransitionNameView::NoName => "none"@,
                ViewTransitionNameView::MatchElement => "match-element"@,
                ViewTransitionNameView::Ident(ident) => css_identifier(ident),
            },
    {
        match self {
            ViewTransitionName::NoName => String::from_str("none"),
            ViewTransitionName::MatchElement => String::from_str("match-element"),
            ViewTransitionName::Ident(ident) => serialize_atom_identifier(ident),
        }
    }
}

/// A value of `view-transition-class`: a list of `<custom-ident>`s, or
/// `none`, for which the empty list stands.
#[derive(Clone, Debug, PartialEq, Eq, Hash)]
pub struct ViewTransitionClass(pub Vec<CustomIdent>);

impl View for ViewTransitionClass {
    type V = Seq<Seq<char>>;

    /// The identifiers of the list, each by its characters.
    open spec fn view(&self) -> Seq<Seq<char>> {
        self.0@.map_values(|ident: CustomIdent| ident@)
    }
}

impl ViewTransitionClass {
    /// The value `none`.
    pub fn none() -> (class: ViewTransitionClass)
        ensures
            class@ == Seq::<Seq<char>>::empty(),
    {
        let class = ViewTransitionClass(Vec::new());
        assert(class@ =~= Seq::<Seq<char>>::empty());
        class
    }

    /// Whether this is the value `none`.
    pub fn is_none(&self) -> (none: bool)
        ensures
            none == (self@.len() == 0),
    {
        self.0.len() == 0
    }
}

} // verus!
