//! A named, typed column of a schema.

use vstd::prelude::*;

use crate::data_type::DataType;
use crate::dup::Dup;

verus! {

#[derive(Debug, PartialEq, Eq)]
pub struct DataField {
    name: String,
    data_type: DataType,
    nullable: bool,
    /// The serialized default expression of the column, if it has one.
    default_expr: Option<Vec<u8>>,
}

/// The mathematical image of a `DataField`.
#[verifier::ext_equal]
pub ghost struct DataFieldG {
    pub name: Seq<char>,
    pub data_type: DataType,
    pub nullable: bool,
    pub default_expr: Option<Seq<u8>>,
}

impl View for DataField {
    type V = DataFieldG;

    closed spec fn view(&self) -> DataFieldG {
        DataFieldG {
            name: self.name@,
            data_type: self.data_type,
            nullable: self.nullable,
            default_expr: match self.default_expr {
                Option::None => None,
                Option::Some(e) => Some(e@),
            },
        }
    }
}

impl DataField {
    pub fn new(name: &str, data_type: DataType, nullable: bool) -> (r: Self)
        ensures
            r@ == (DataFieldG { name: name@, data_type, nullable, default_expr: None }),
    {
        let r = DataField { name: name.to_owned(), data_type, nullable, default_expr: None };
        proof {
            assert(r@ =~= DataFieldG { name: name@, data_type, nullable, default_expr: None });
        }
        r
    }

    pub fn with_default_expr(self, default_expr: Option<Vec<u8>>) -> (r: Self)
        ensures
            r@ == (DataFieldG {
                name: self@.name,
                data_type: self@.data_type,
                nullable: self@.nullable,
                default_expr: match default_expr {
                    Option::None => None,
                    Option::Some(e) => Some(e@),
                },
            }),
    {
        let r = DataField {
            name: self.name,
            data_type: self.data_type,
            nullable: self.nullable,
            default_expr,
        };
        proof {
            assert(r@ =~= DataFieldG {
                name: self@.name,
                data_type: self@.data_type,
                nullable: self@.nullable,
                default_expr: r@.default_expr,
            });
        }
        r
    }

    pub fn name(&self) -> (r: &String)
        ensures
            r@ == self@.name,
    {
        &self.name
    }

    pub fn default_expr(&self) -> (r: &Option<Vec<u8>>)
        ensures
            match r {
                Option::None => self@.default_expr is None,
                Option::Some(e) => self@.default_expr == Some(e@),
            },
    {
        &self.default_expr
    }

    pub fn data_type(&self) -> (r: &DataType)
        ensures
            *r == self@.data_type,
    {
        &self.data_type
    }

    pub fn is_nullable(&self) -> (r: bool)
        ensures
            r == self@.nullable,
    {
        self.nullable
    }

    /// Whether `self` can stand wherever `other` is expected: same name and
    /// type, and `self` may only add nullability, never take it away.
    pub fn contains(&self, other: &DataField) -> (r: bool)
        ensures
            r == (self@.name == other@.name && self@.data_type == other@.data_type && (self@.nullable
                == other@.nullable || self@.nullable)),
    {
        if !self.name.eq(&other.name) || self.data_type != other.data_type {
            return false;
        }
        if self.nullable != other.nullable && !self.nullable {
            return false;
        }
        true
    }
}

impl Dup for DataField {
    fn dup(&self) -> (r: Self)
        ensures
            r@ == self@,
    {
        let default_expr = match &self.default_expr {
            Option::None => None,
            Option::Some(e) => Some(e.dup()),
        };
        let r = DataField {
            name: self.name.dup(),
            data_type: self.data_type,
            nullable: self.nullable,
            default_expr,
        };
        proof {
            assert(r@ =~= self@);
        }
        r
    }
}

} // verus!
