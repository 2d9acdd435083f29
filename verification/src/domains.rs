//! Two small example type domains: a wide one covering several type values
//! and a narrow one knowing only one, so that the same raw value can resolve
//! under the first and be rejected under the second.

use vstd::prelude::*;

use crate::IdType;
use crate::deser::TYPE_ID_MAX;

verus! {

/// A type domain with four values, including one at the top of the id range.
#[derive(Clone, Copy, Debug, PartialEq, Eq, Structural)]
pub enum MyType {
    User,
    Org,
    Session,
    Max,
}

/// A domain that recognises only the `user` type.
#[derive(Clone, Copy, Debug, PartialEq, Eq, Structural)]
pub enum NarrowType {
    User,
}

impl IdType for MyType {
    open spec fn spec_id(self) -> u16 {
        match self {
            MyType::User => 1,
            MyType::Org => 2,
            MyType::Session => 777,
            MyType::Max => TYPE_ID_MAX,
        }
    }

    open spec fn spec_name(self) -> Seq<char> {
        match self {
            MyType::User => "user"@,
            MyType::Org => "org"@,
            MyType::Session => "session"@,
            MyType::Max => "max"@,
        }
    }

    proof fn lemma_ids_injective(a: Self, b: Self) {
    }

    proof fn lemma_names_injective(a: Self, b: Self) {
        reveal_strlit("user");
        reveal_strlit("org");
        reveal_strlit("session");
        reveal_strlit("max");
        assert("user"@.len() == 4 && "org"@.len() == 3 && "session"@.len() == 7 && "max"@.len()
            == 3);
        assert("org"@[0] == 'o' && "max"@[0] == 'm');
    }

    fn to_type_id(self) -> (r: u16) {
        match self {
            MyType::User => 1,
            MyType::Org => 2,
            MyType::Session => 777,
            MyType::Max => TYPE_ID_MAX,
        }
    }

    fn from_type_id(id: u16) -> (r: Option<Self>) {
        if id == 1 {
            Some(MyType::User)
        } else if id == 2 {
            Some(MyType::Org)
        } else if id == 777 {
            Some(MyType::Session)
        } else if id == TYPE_ID_MAX {
            Some(MyType::Max)
        } else {
            None
        }
    }

    fn as_type_name(self) -> (r: &'static str) {
        match self {
            MyType::User => "user",
            MyType::Org => "org",
            MyType::Session => "session",
            MyType::Max => "max",
        }
    }

    fn from_type_name(name: &str) -> (r: Option<Self>) {
        let n: String = name.to_owned();
        if n == String::from_str("user") {
            Some(MyType::User)
        } else if n == String::from_str("org") {
            Some(MyType::Org)
        } else if n == String::from_str("session") {
            Some(MyType::Session)
        } else if n == String::from_str("max") {
            Some(MyType::Max)
        } else {
            None
        }
    }
}

impl IdType for NarrowType {
    open spec fn spec_id(self) -> u16 {
        1
    }

    open spec fn spec_name(self) -> Seq<char> {
        "user"@
    }

    proof fn lemma_ids_injective(a: Self, b: Self) {
    }

    proof fn lemma_names_injective(a: Self, b: Self) {
    }

    fn to_type_id(self) -> (r: u16) {
        1
    }

    fn from_type_id(id: u16) -> (r: Option<Self>) {
        if id == 1 {
            Some(NarrowType::User)
        } else {
            None
        }
    }

    fn as_type_name(self) -> (r: &'static str) {
        "user"
    }

    fn from_type_name(name: &str) -> (r: Option<Self>) {
        let n: String = name.to_owned();
        if n == String::from_str("user") {
            Some(NarrowType::User)
        } else {
            None
        }
    }
}

} // verus!
