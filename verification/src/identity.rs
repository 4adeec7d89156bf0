//! Stable identifiers for the part graph.
//!
//! Every identifier wraps non-empty text; its view is that text.
use vstd::prelude::*;

use crate::error::{PartsError, PartsResult};

verus! {

/// Stable non-empty identifier.
#[derive(Debug, PartialEq, Eq, Hash, PartialOrd, Ord)]
pub struct PartId(String);

impl View for PartId {
    type V = Seq<char>;

    closed spec fn view(&self) -> Seq<char> {
        self.0@
    }
}

impl Clone for PartId {
    fn clone(&self) -> (r: Self)
        ensures
            r == *self,
    {
        proof {
            use_type_invariant(self);
        }
        PartId(self.0.clone())
    }
}

impl PartId {
    /// The text is never empty.
    #[verifier::type_invariant]
    spec fn nonempty(self) -> bool {
        self.0@.len() > 0
    }

    /// Creates a non-empty id; empty text is refused with `EmptyIdentifier`.
    pub fn new(value: &str) -> (r: PartsResult<Self>)
        ensures
            value@.len() == 0 ==> r == Err::<Self, PartsError>(PartsError::EmptyIdentifier),
            value@.len() > 0 ==> (r matches Ok(id) && id@ == value@),
    {
        if value.unicode_len() == 0 {
            return Err(PartsError::EmptyIdentifier);
        }
        Ok(PartId(String::from_str(value)))
    }

    /// Returns the id text.
    pub fn as_str(&self) -> (s: &str)
        ensures
            s@ == self@,
            s@.len() > 0,
    {
        proof {
            use_type_invariant(self);
        }
        self.0.as_str()
    }

}

/// Stable non-empty identifier.
#[derive(Debug, PartialEq, Eq, Hash, PartialOrd, Ord)]
pub struct VariantId(String);

impl View for VariantId {
    type V = Seq<char>;

    closed spec fn view(&self) -> Seq<char> {
        self.0@
    }
}

impl Clone for VariantId {
    fn clone(&self) -> (r: Self)
        ensures
            r == *self,
    {
        proof {
            use_type_invariant(self);
        }
        VariantId(self.0.clone())
    }
}

impl VariantId {
    /// The text is never empty.
    #[verifier::type_invariant]
    spec fn nonempty(self) -> bool {
        self.0@.len() > 0
    }

    /// Creates a non-empty id; empty text is refused with `EmptyIdentifier`.
    pub fn new(value: &str) -> (r: PartsResult<Self>)
        ensures
            value@.len() == 0 ==> r == Err::<Self, PartsError>(PartsError::EmptyIdentifier),
            value@.len() > 0 ==> (r matches Ok(id) && id@ == value@),
    {
        if value.unicode_len() == 0 {
            return Err(PartsError::EmptyIdentifier);
        }
        Ok(VariantId(String::from_str(value)))
    }

    /// Returns the id text.
    pub fn as_str(&self) -> (s: &str)
        ensures
            s@ == self@,
            s@.len() > 0,
    {
        proof {
            use_type_invariant(self);
        }
        self.0.as_str()
    }

}

/// Stable non-empty identifier.
#[derive(Debug, PartialEq, Eq, Hash, PartialOrd, Ord)]
pub struct RevisionId(String);

impl View for RevisionId {
    type V = Seq<char>;

    closed spec fn view(&self) -> Seq<char> {
        self.0@
    }
}

impl Clone for RevisionId {
    fn clone(&self) -> (r: Self)
        ensures
            r == *self,
    {
        proof {
            use_type_invariant(self);
        }
        RevisionId(self.0.clone())
    }
}

impl RevisionId {
    /// The text is never empty.
    #[verifier::type_invariant]
    spec fn nonempty(self) -> bool {
        self.0@.len() > 0
    }

    /// Creates a non-empty id; empty text is refused with `EmptyIdentifier`.
    pub fn new(value: &str) -> (r: PartsResult<Self>)
        ensures
            value@.len() == 0 ==> r == Err::<Self, PartsError>(PartsError::EmptyIdentifier),
            value@.len() > 0 ==> (r matches Ok(id) && id@ == value@),
    {
        if value.unicode_len() == 0 {
            return Err(PartsError::EmptyIdentifier);
        }
        Ok(RevisionId(String::from_str(value)))
    }

    /// Returns the id text.
    pub fn as_str(&self) -> (s: &str)
        ensures
            s@ == self@,
            s@.len() > 0,
    {
        proof {
            use_type_invariant(self);
        }
        self.0.as_str()
    }

}

/// Stable non-empty identifier.
#[derive(Debug, PartialEq, Eq, Hash, PartialOrd, Ord)]
pub struct TerminalId(String);

impl View for TerminalId {
    type V = Seq<char>;

    closed spec fn view(&self) -> Seq<char> {
        self.0@
    }
}

impl Clone for TerminalId {
    fn clone(&self) -> (r: Self)
        ensures
            r == *self,
    {
        proof {
            use_type_invariant(self);
        }
        TerminalId(self.0.clone())
    }
}

impl TerminalId {
    /// The text is never empty.
    #[verifier::type_invariant]
    spec fn nonempty(self) -> bool {
        self.0@.len() > 0
    }

    /// Creates a non-empty id; empty text is refused with `EmptyIdentifier`.
    pub fn new(value: &str) -> (r: PartsResult<Self>)
        ensures
            value@.len() == 0 ==> r == Err::<Self, PartsError>(PartsError::EmptyIdentifier),
            value@.len() > 0 ==> (r matches Ok(id) && id@ == value@),
    {
        if value.unicode_len() == 0 {
            return Err(PartsError::EmptyIdentifier);
        }
        Ok(TerminalId(String::from_str(value)))
    }

    /// Returns the id text.
    pub fn as_str(&self) -> (s: &str)
        ensures
            s@ == self@,
            s@.len() > 0,
    {
        proof {
            use_type_invariant(self);
        }
        self.0.as_str()
    }

}

/// Stable non-empty identifier.
#[derive(Debug, PartialEq, Eq, Hash, PartialOrd, Ord)]
pub struct ManufacturerPartNumber(String);

impl View for ManufacturerPartNumber {
    type V = Seq<char>;

    closed spec fn view(&self) -> Seq<char> {
        self.0@
    }
}

impl Clone for ManufacturerPartNumber {
    fn clone(&self) -> (r: Self)
        ensures
            r == *self,
    {
        proof {
            use_type_invariant(self);
        }
        ManufacturerPartNumber(self.0.clone())
    }
}

impl ManufacturerPartNumber {
    /// The text is never empty.
    #[verifier::type_invariant]
    spec fn nonempty(self) -> bool {
        self.0@.len() > 0
    }

    /// Creates a non-empty id; empty text is refused with `EmptyIdentifier`.
    pub fn new(value: &str) -> (r: PartsResult<Self>)
        ensures
            value@.len() == 0 ==> r == Err::<Self, PartsError>(PartsError::EmptyIdentifier),
            value@.len() > 0 ==> (r matches Ok(id) && id@ == value@),
    {
        if value.unicode_len() == 0 {
            return Err(PartsError::EmptyIdentifier);
        }
        Ok(ManufacturerPartNumber(String::from_str(value)))
    }

    /// Returns the id text.
    pub fn as_str(&self) -> (s: &str)
        ensures
            s@ == self@,
            s@.len() > 0,
    {
        proof {
            use_type_invariant(self);
        }
        self.0.as_str()
    }

}

/// Stable non-empty identifier.
#[derive(Debug, PartialEq, Eq, Hash, PartialOrd, Ord)]
pub struct InternalPartNumber(String);

impl View for InternalPartNumber {
    type V = Seq<char>;

    closed spec fn view(&self) -> Seq<char> {
        self.0@
    }
}

impl Clone for InternalPartNumber {
    fn clone(&self) -> (r: Self)
        ensures
            r == *self,
    {
        proof {
            use_type_invariant(self);
        }
        InternalPartNumber(self.0.clone())
    }
}

impl InternalPartNumber {
    /// The text is never empty.
    #[verifier::type_invariant]
    spec fn nonempty(self) -> bool {
        self.0@.len() > 0
    }

    /// Creates a non-empty id; empty text is refused with `EmptyIdentifier`.
    pub fn new(value: &str) -> (r: PartsResult<Self>)
        ensures
            value@.len() == 0 ==> r == Err::<Self, PartsError>(PartsError::EmptyIdentifier),
            value@.len() > 0 ==> (r matches Ok(id) && id@ == value@),
    {
        if value.unicode_len() == 0 {
            return Err(PartsError::EmptyIdentifier);
        }
        Ok(InternalPartNumber(String::from_str(value)))
    }

    /// Returns the id text.
    pub fn as_str(&self) -> (s: &str)
        ensures
            s@ == self@,
            s@.len() > 0,
    {
        proof {
            use_type_invariant(self);
        }
        self.0.as_str()
    }

}

/// Stable non-empty identifier.
#[derive(Debug, PartialEq, Eq, Hash, PartialOrd, Ord)]
pub struct SupplierSku(String);

impl View for SupplierSku {
    type V = Seq<char>;

    closed spec fn view(&self) -> Seq<char> {
        self.0@
    }
}

impl Clone for SupplierSku {
    fn clone(&self) -> (r: Self)
        ensures
            r == *self,
    {
        proof {
            use_type_invariant(self);
        }
        SupplierSku(self.0.clone())
    }
}

impl SupplierSku {
    /// The text is never empty.
    #[verifier::type_invariant]
    spec fn nonempty(self) -> bool {
        self.0@.len() > 0
    }

    /// Creates a non-empty id; empty text is refused with `EmptyIdentifier`.
    pub fn new(value: &str) -> (r: PartsResult<Self>)
        ensures
            value@.len() == 0 ==> r == Err::<Self, PartsError>(PartsError::EmptyIdentifier),
            value@.len() > 0 ==> (r matches Ok(id) && id@ == value@),
    {
        if value.unicode_len() == 0 {
            return Err(PartsError::EmptyIdentifier);
        }
        Ok(SupplierSku(String::from_str(value)))
    }

    /// Returns the id text.
    pub fn as_str(&self) -> (s: &str)
        ensures
            s@ == self@,
            s@.len() > 0,
    {
        proof {
            use_type_invariant(self);
        }
        self.0.as_str()
    }

}

} // verus!
