//! The operations of a declaration and the parameters they take.

use vstd::prelude::*;
use vstd::string::StringExecFns;
use crate::context::StdContext;
use crate::errors::{BrixError, BrixErrorKind};



pub mod copy;
pub mod exec;
pub mod mkdir;
pub mod overwrite;
pub mod search_replace;
pub mod template;




verus! {

/// The parameters of one operation after its placeholders were resolved.
/// Paths are strings with `/` between their parts.
#[derive(Debug)]
pub struct ProcessedCommandParams {
    pub source: Option<String>,
    pub destination: Option<String>,
    pub overwrite: Option<bool>,
    pub search: Option<String>,
    pub replace: Option<String>,
    pub commands: Option<Vec<String>>,
    pub stdout: Option<bool>,
    pub context: Option<StdContext>,
}

/// The required fields that an operation was not given, in the order in
/// which the operation declares them.
#[derive(Debug)]
pub struct ValidationError {
    pub missing_fields: Vec<String>,
}

/// The names in `fields` as plain sequences.
pub open spec fn names_of(fields: Seq<String>) -> Seq<Seq<char>> {
    Seq::new(fields.len(), |i: int| fields[i]@)
}

/// The field `name` if `absent`, else nothing.
pub open spec fn missing_if(absent: bool, name: Seq<char>) -> Seq<Seq<char>> {
    if absent {
        seq![name]
    } else {
        Seq::empty()
    }
}

/// The message that names every field in `fields` as required.
pub open spec fn required_message(fields: Seq<Seq<char>>) -> Seq<char>
    decreases fields.len(),
{
    if fields.len() == 0 {
        Seq::empty()
    } else {
        required_message(fields.drop_last()) + "\nField '"@ + fields.last() + "' is required!"@
    }
}

impl ValidationError {
    /// The names of the missing fields.
    pub open spec fn view(&self) -> Seq<Seq<char>> {
        names_of(self.missing_fields@)
    }

    /// No missing field yet.
    pub fn new() -> (e: Self)
        ensures
            e@ == Seq::<Seq<char>>::empty(),
    {
        let e = ValidationError { missing_fields: Vec::new() };
        assert(e@ =~= Seq::<Seq<char>>::empty());
        e
    }

    /// Notes `name` as missing if `absent`.
    pub fn require(&mut self, absent: bool, name: &str)
        ensures
            final(self)@ == old(self)@ + missing_if(absent, name@),
    {
        if absent {
            self.missing_fields.push(String::from_str(name));
        }
        assert(self@ =~= old(self)@ + missing_if(absent, name@));
    }

    /// Whether no field is missing.
    pub fn is_empty(&self) -> (b: bool)
        ensures
            b == (self@.len() == 0),
    {
        self.missing_fields.len() == 0
    }

    /// The error that tells the user of every missing field.
    pub fn into_error(self) -> (e: BrixError)
        ensures
            e.kind == Some(BrixErrorKind::Validation),
            e.message@ == required_message(self@),
    {
        let mut message = String::new();
        let mut i: usize = 0;
        assert(self@.take(0) =~= Seq::<Seq<char>>::empty());
        while i < self.missing_fields.len()
            invariant
                i <= self.missing_fields.len(),
                message@ == required_message(self@.take(i as int)),
            decreases self.missing_fields.len() - i,
        {
            assert(self@.take(i + 1).drop_last() =~= self@.take(i as int));
            assert(self@.take(i + 1).last() == self.missing_fields@[i as int]@);
            message.append("\nField '");
            message.append(self.missing_fields[i].as_str());
            message.append("' is required!");
            i += 1;
        }
        assert(self@.take(self.missing_fields.len() as int) =~= self@);
        BrixError { kind: Some(BrixErrorKind::Validation), message }
    }
}

/// What every operation offers.
pub trait Command {
    /// The name under which progress is reported.
    spec fn spec_name(&self) -> Seq<char>;

    /// The name under which progress is reported.
    fn name(&self) -> (n: String)
        ensures
            n@ == self.spec_name(),
    ;
}

/// Parameters of an operation that writes to a destination from a source.
pub trait OverwritableParams {
    spec fn spec_source(&self) -> Seq<char>;

    spec fn spec_destination(&self) -> Seq<char>;

    spec fn spec_overwrite(&self) -> Option<bool>;

    /// Where the operation reads from.
    fn source(&self) -> (s: String)
        ensures
            s@ == self.spec_source(),
    ;

    /// Where the operation writes to.
    fn destination(&self) -> (d: String)
        ensures
            d@ == self.spec_destination(),
    ;

    /// Whether an existing destination is replaced; `None` asks the user.
    fn overwrite(&self) -> (o: Option<bool>)
        ensures
            o == self.spec_overwrite(),
    ;
}

} // verus!
