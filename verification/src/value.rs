//! The values of the fact store: a literal, its description, and whether the
//! literal is known.

use vstd::prelude::*;

verus! {

/// How a constant is typed. The set is closed: each variant decides how its
/// constant is written out.
#[derive(Debug, Clone, Copy, PartialEq, Eq, Structural)]
pub enum ConstType {
    /// A string that may be unknown. It is declared as a plain string and
    /// written with an empty literal.
    OptStr,
    /// A plain string.
    Str,
}

/// The declared type of every generated constant.
pub const DECLARED_TYPE: &'static str = "&str";

impl ConstType {
    /// The type under which a constant of this kind is declared.
    pub open spec fn spec_declared_type(self) -> Seq<char> {
        DECLARED_TYPE@
    }

    /// The type under which a constant of this kind is declared: optional
    /// strings are declared as plain strings too, so that every generated
    /// constant is unconditionally valid.
    pub fn declared_type(&self) -> (r: &'static str)
        ensures
            r@ == self.spec_declared_type(),
    {
        match self {
            ConstType::OptStr => DECLARED_TYPE,
            ConstType::Str => DECLARED_TYPE,
        }
    }
}

/// One fact: the literal `v`, a description for the doc comment, and the
/// type tag `t`.
#[derive(Debug, PartialEq, Eq)]
pub struct ConstVal {
    /// Human-readable description, written as the doc comment.
    pub desc: String,
    /// The collected literal.
    pub v: String,
    /// The type tag.
    pub t: ConstType,
}

/// A `ConstVal` as contracts see it.
pub ghost struct ConstValView {
    pub desc: Seq<char>,
    pub v: Seq<char>,
    pub t: ConstType,
}

impl View for ConstVal {
    type V = ConstValView;

    open spec fn view(&self) -> ConstValView {
        ConstValView { desc: self.desc@, v: self.v@, t: self.t }
    }
}

/// The value that stands for a fact that could not be determined: an optional
/// string with an empty literal.
pub open spec fn fallback(desc: Seq<char>) -> ConstValView {
    ConstValView { desc, v: Seq::empty(), t: ConstType::OptStr }
}

/// A fact whose literal is known.
pub open spec fn known(desc: Seq<char>, v: Seq<char>) -> ConstValView {
    ConstValView { desc, v, t: ConstType::Str }
}

/// A fact of optional type for which `v` was collected: `v` stays in the
/// store and is written as the empty literal.
pub open spec fn optional(desc: Seq<char>, v: Seq<char>) -> ConstValView {
    ConstValView { desc, v, t: ConstType::OptStr }
}

/// A fact that is known only where a value was found.
pub open spec fn known_or_fallback(desc: Seq<char>, v: Option<Seq<char>>) -> ConstValView {
    match v {
        Some(v) => known(desc, v),
        None => fallback(desc),
    }
}

impl ConstValView {
    /// The literal that is written out for this value: optional strings are
    /// always written empty, whatever was collected.
    pub open spec fn literal(self) -> Seq<char> {
        match self.t {
            ConstType::OptStr => Seq::empty(),
            ConstType::Str => self.v,
        }
    }
}

impl ConstVal {
    /// The fallback value with the given description.
    pub fn new(desc: &str) -> (r: ConstVal)
        ensures
            r@ == fallback(desc@),
    {
        ConstVal { desc: String::from_str(desc), v: String::new(), t: ConstType::OptStr }
    }

    /// A known value with the given description.
    pub fn with_value(desc: &str, v: String) -> (r: ConstVal)
        ensures
            r@ == known(desc@, v@),
    {
        ConstVal { desc: String::from_str(desc), v, t: ConstType::Str }
    }

    /// A value of optional type that holds what was collected.
    pub fn optional(desc: &str, v: String) -> (r: ConstVal)
        ensures
            r@ == optional(desc@, v@),
    {
        ConstVal { desc: String::from_str(desc), v, t: ConstType::OptStr }
    }

    /// A known value where `v` is there, the fallback where it is not.
    pub fn from_option(desc: &str, v: Option<String>) -> (r: ConstVal)
        ensures
            r@ == known_or_fallback(
                desc@,
                match v {
                    Some(s) => Some(s@),
                    None => None,
                },
            ),
    {
        match v {
            Some(s) => ConstVal::with_value(desc, s),
            None => ConstVal::new(desc),
        }
    }

    /// Records a collected literal: the value becomes a plain string.
    pub fn set(&mut self, v: String)
        ensures
            final(self)@ == known(old(self)@.desc, v@),
    {
        self.v = v;
        self.t = ConstType::Str;
    }

    /// The literal that is written out for this value.
    pub fn literal(&self) -> (r: &str)
        ensures
            r@ == self@.literal(),
    {
        match self.t {
            ConstType::OptStr => {
                proof {
                    reveal_strlit("");
                }
                ""
            },
            ConstType::Str => self.v.as_str(),
        }
    }
}

impl Clone for ConstVal {
    fn clone(&self) -> (r: Self)
        ensures
            r@ == self@,
    {
        ConstVal { desc: self.desc.clone(), v: self.v.clone(), t: self.t }
    }
}

} // verus!
