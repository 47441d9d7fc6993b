use vstd::prelude::*;

use crate::error::ErrorCode;

verus! {

/// The object a privilege grant applies to.
#[derive(Debug, PartialEq, Eq)]
pub enum GrantObject {
    Global,
    Database(String),
    Table(String, String),
}

/// A planned grant statement: who receives which privileges (a bit set
/// of privilege kinds) on which object.
#[derive(Debug, PartialEq, Eq)]
pub struct GrantPrivilegePlan {
    pub name: String,
    pub hostname: String,
    pub priv_types: u64,
    pub on: GrantObject,
}

/// Interpreter for a grant statement. The decision this core owns is
/// the validation of the grant target; catalog lookups and the final
/// user-manager write are outside collaborators that answer it.
#[derive(Debug)]
pub struct GrantPrivilegeInterpreter {
    pub plan: GrantPrivilegePlan,
}

impl GrantPrivilegeInterpreter {
    pub fn try_create(plan: GrantPrivilegePlan) -> (r: Result<GrantPrivilegeInterpreter, ErrorCode>)
        ensures
            r matches Ok(i) && i.plan == plan,
    {
        Ok(GrantPrivilegeInterpreter { plan })
    }

    pub fn name(&self) -> (r: &'static str)
        ensures
            r@ == "GrantPrivilegeInterpreter"@,
    {
        "GrantPrivilegeInterpreter"
    }
}

/// Whether the grant target exists, given the catalog's answers for the
/// named database and table; a missing object is refused with an error
/// that names it, and a global grant needs no lookup at all.
pub fn check_grant_object(on: &GrantObject, db_exists: bool, table_exists: bool) -> (r: Result<
    (),
    ErrorCode,
>)
    ensures
        match *on {
            GrantObject::Global => r is Ok,
            GrantObject::Database(d) => if db_exists {
                r is Ok
            } else {
                r == Err::<(), ErrorCode>(ErrorCode::UnknownDatabase(d))
            },
            GrantObject::Table(d, t) => if table_exists {
                r is Ok
            } else {
                r == Err::<(), ErrorCode>(ErrorCode::UnknownTable(d, t))
            },
        },
{
    match on {
        GrantObject::Global => Ok(()),
        GrantObject::Database(d) => {
            if db_exists {
                Ok(())
            } else {
                Err(ErrorCode::UnknownDatabase(d.clone()))
            }
        },
        GrantObject::Table(d, t) => {
            if table_exists {
                Ok(())
            } else {
                Err(ErrorCode::UnknownTable(d.clone(), t.clone()))
            }
        },
    }
}

} // verus!
