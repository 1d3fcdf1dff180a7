//! The decision core of the `ranged` attribute: from the shape of the
//! annotated item and of the attribute argument, either the pieces the
//! expansion contains, or the error that stops the build.

use vstd::prelude::*;

verus! {

/// The shape of the field list of the annotated struct.
#[derive(PartialEq, Eq, Structural, Clone, Copy, Debug)]
pub enum FieldsShape {
    /// A unit struct: no field list at all.
    Unit,
    /// Named fields, with how many there are.
    Named { count: usize },
    /// A tuple struct, with how many fields it has.
    Unnamed { count: usize },
}

/// The shape of the item under the attribute.
#[derive(PartialEq, Eq, Structural, Clone, Copy, Debug)]
pub enum ItemShape {
    /// The item did not parse as a struct declaration.
    NotAStruct,
    /// A struct with the given field list.
    Struct { fields: FieldsShape },
}

/// The shape of the attribute argument.
#[derive(PartialEq, Eq, Structural, Clone, Copy, Debug)]
pub enum AttrShape {
    /// The argument did not parse as a range expression.
    NotARange,
    /// A half-open range (`a..b` and its one-ended forms), with which ends
    /// are present.
    HalfOpen { has_lo: bool, has_hi: bool },
    /// A closed range (`a..=b`, `a..=`, `..=b`), with which ends are present.
    Closed { has_lo: bool, has_hi: bool },
}

/// Why an expansion is refused; the build then fails with the matching
/// message.
#[derive(PartialEq, Eq, Structural, Clone, Copy, Debug)]
pub enum MacroError {
    /// The attribute sits on something other than a tuple struct with a
    /// single field.
    NotSingleFieldTupleStruct,
    /// The attribute argument is not a closed range.
    NotClosedRange,
}

/// Which pieces the expansion contains. Each `true` names a fragment that is
/// spliced into the generated code; each fragment mentions the matching end
/// of the declared interval.
#[derive(PartialEq, Eq, Structural, Clone, Copy, Debug)]
pub struct Plan {
    /// The checked constructor refuses values below the lower bound.
    pub lo_check: bool,
    /// The checked constructor refuses values above the upper bound.
    pub hi_check: bool,
    /// A layout attribute telling the compiler the field never goes below
    /// the lower bound.
    pub lo_layout: bool,
    /// A layout attribute telling the compiler the field never goes above
    /// the upper bound.
    pub hi_layout: bool,
    /// The accessor hands the compiler the lower bound as an assumption.
    pub lo_assume: bool,
    /// The accessor hands the compiler the upper bound as an assumption.
    pub hi_assume: bool,
}

/// Is the item one the attribute accepts: a tuple struct with exactly one
/// field?
pub open spec fn accepted_item(item: ItemShape) -> bool {
    item matches ItemShape::Struct { fields: FieldsShape::Unnamed { count } } && count == 1
}

/// The plan for a closed range whose ends are present as given, under the
/// two feature switches.
pub open spec fn spec_plan(
    has_lo: bool,
    has_hi: bool,
    layout_hints: bool,
    assume_hints: bool,
) -> Plan {
    Plan {
        lo_check: has_lo,
        hi_check: has_hi,
        lo_layout: layout_hints && has_lo,
        hi_layout: layout_hints && has_hi,
        lo_assume: assume_hints && has_lo,
        hi_assume: assume_hints && has_hi,
    }
}

/// Decide the expansion. The item's shape is judged first: anything but a
/// single-field tuple struct is refused, and the attribute argument is not
/// looked at. Otherwise the argument must be a closed range; each end that
/// is present switches its constructor check on, and the two feature
/// switches gate the layout attributes and the accessor's assumptions.
pub fn plan_expansion(
    item: ItemShape,
    attr: AttrShape,
    layout_hints: bool,
    assume_hints: bool,
) -> (r: Result<Plan, MacroError>)
    ensures
        r == Err::<Plan, MacroError>(MacroError::NotSingleFieldTupleStruct) <==> !accepted_item(
            item,
        ),
        r == Err::<Plan, MacroError>(MacroError::NotClosedRange) <==> accepted_item(item) && !(attr
            is Closed),
        accepted_item(item) ==> (attr matches AttrShape::Closed { has_lo, has_hi } ==> r == Ok::<
            Plan,
            MacroError,
        >(spec_plan(has_lo, has_hi, layout_hints, assume_hints))),
        r is Ok <==> accepted_item(item) && attr is Closed,
{
    let single_field_tuple = match item {
        ItemShape::Struct { fields: FieldsShape::Unnamed { count } } => count == 1,
        _ => false,
    };
    if !single_field_tuple {
        return Err(MacroError::NotSingleFieldTupleStruct);
    }
    match attr {
        AttrShape::Closed { has_lo, has_hi } => Ok(
            Plan {
                lo_check: has_lo,
                hi_check: has_hi,
                lo_layout: layout_hints && has_lo,
                hi_layout: layout_hints && has_hi,
                lo_assume: assume_hints && has_lo,
                hi_assume: assume_hints && has_hi,
            },
        ),
        _ => Err(MacroError::NotClosedRange),
    }
}

impl MacroError {
    /// The message the failed build reports.
    pub open spec fn spec_message(self) -> Seq<char> {
        match self {
            MacroError::NotSingleFieldTupleStruct =>
                "`ranged` can only be applied to a tuple struct with a single field"@,
            MacroError::NotClosedRange =>
                "`range` expect attribute to be an closed range (like `1..=2`, `1..=`, `..=2`)"@,
        }
    }

    /// The message the failed build reports.
    pub fn message(self) -> (m: &'static str)
        ensures
            m@ == self.spec_message(),
    {
        match self {
            MacroError::NotSingleFieldTupleStruct =>
                "`ranged` can only be applied to a tuple struct with a single field",
            MacroError::NotClosedRange =>
                "`range` expect attribute to be an closed range (like `1..=2`, `1..=`, `..=2`)",
        }
    }
}

} // verus!
