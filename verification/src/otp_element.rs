//! The credential store: an ordered collection of one-time-password records.
//!
//! Code generation and persistence are outside collaborators; here a record
//! carries the code last regenerated for it (`None` when the secret material
//! is malformed and no code could be derived), and the store exposes the
//! narrow read/mutate interface the session controller consumes.

use vstd::prelude::*;

verus! {

/// One credential record.  The secret material is opaque: it is carried,
/// never interpreted, by this crate.
#[derive(Debug, PartialEq)]
pub struct OTPElement {
    pub issuer: String,
    pub label: String,
    pub secret: String,
    pub counter: u64,
    pub code: Option<String>,
}

/// Mathematical model of a credential record.
pub struct ElemView {
    pub issuer: Seq<char>,
    pub label: Seq<char>,
    pub secret: Seq<char>,
    pub counter: u64,
    pub code: Option<Seq<char>>,
}

impl View for OTPElement {
    type V = ElemView;

    open spec fn view(&self) -> ElemView {
        ElemView {
            issuer: self.issuer@,
            label: self.label@,
            secret: self.secret@,
            counter: self.counter,
            code: match self.code {
                Option::Some(ref c) => Option::Some(c@),
                Option::None => Option::None,
            },
        }
    }
}

impl OTPElement {
    /// Builds a record from its parts.
    pub fn new(issuer: String, label: String, secret: String, counter: u64, code: Option<
        String,
    >) -> (r: OTPElement)
        ensures
            r.issuer == issuer,
            r.label == label,
            r.secret == secret,
            r.counter == counter,
            r.code == code,
    {
        OTPElement { issuer, label, secret, counter, code }
    }

    /// A field-for-field copy of the record.
    pub fn duplicate(&self) -> (r: OTPElement)
        ensures
            r@ == self@,
    {
        OTPElement {
            issuer: self.issuer.clone(),
            label: self.label.clone(),
            secret: self.secret.clone(),
            counter: self.counter,
            code: match &self.code {
                Option::Some(c) => Option::Some(c.clone()),
                Option::None => Option::None,
            },
        }
    }
}

/// Failures of the store's mutation and code-lookup operations.
#[derive(Clone, Copy, Debug, PartialEq, Eq, Structural)]
pub enum OtpError {
    /// The targeted index no longer names a record.
    IndexOutOfRange,
    /// The record's secret material is malformed; no code could be derived.
    ComputationError,
}

/// The record `e` with its counter replaced by `c`.
pub open spec fn with_counter(e: ElemView, c: u64) -> ElemView {
    ElemView { counter: c, ..e }
}

/// The ordered credential store.
#[derive(Debug)]
pub struct OTPDatabase {
    elements: Vec<OTPElement>,
}

impl View for OTPDatabase {
    type V = Seq<ElemView>;

    closed spec fn view(&self) -> Seq<ElemView> {
        self.elements@.map_values(|e: OTPElement| e@)
    }
}

impl OTPDatabase {
    /// A store holding exactly the given records, in order.
    pub fn new(elements: Vec<OTPElement>) -> (r: OTPDatabase)
        ensures
            r@ == elements@.map_values(|e: OTPElement| e@),
    {
        OTPDatabase { elements }
    }

    /// Read-only snapshot of the records, in store order.
    pub fn elements(&self) -> (r: &Vec<OTPElement>)
        ensures
            r@.map_values(|e: OTPElement| e@) == self@,
    {
        &self.elements
    }

    /// Number of records held.
    pub fn len(&self) -> (r: usize)
        ensures
            r == self@.len(),
    {
        self.elements.len()
    }

    /// Appends a record at the end of the store.
    pub fn add(&mut self, element: OTPElement)
        ensures
            final(self)@ =~= old(self)@.push(element@),
    {
        self.elements.push(element);
    }

    /// Replaces the record at `index`; fails when the index is stale.
    pub fn edit(&mut self, index: usize, element: OTPElement) -> (r: Result<(), OtpError>)
        ensures
            r is Ok <==> index < old(self)@.len(),
            r is Ok ==> final(self)@ =~= old(self)@.update(index as int, element@),
            r is Err ==> r == Err::<(), OtpError>(OtpError::IndexOutOfRange) && final(self)@
                == old(self)@,
    {
        if index < self.elements.len() {
            self.elements.remove(index);
            self.elements.insert(index, element);
            Ok(())
        } else {
            Err(OtpError::IndexOutOfRange)
        }
    }

    /// Removes the record at `index`; fails when the index is stale.
    pub fn delete(&mut self, index: usize) -> (r: Result<(), OtpError>)
        ensures
            r is Ok <==> index < old(self)@.len(),
            r is Ok ==> final(self)@ =~= old(self)@.remove(index as int),
            r is Err ==> r == Err::<(), OtpError>(OtpError::IndexOutOfRange) && final(self)@
                == old(self)@,
    {
        if index < self.elements.len() {
            self.elements.remove(index);
            Ok(())
        } else {
            Err(OtpError::IndexOutOfRange)
        }
    }

    /// The current code of the record at `index`: the code last regenerated
    /// for it, `IndexOutOfRange` on a stale index, `ComputationError` when
    /// the secret material yielded no code.
    pub fn current_code(&self, index: usize) -> (r: Result<String, OtpError>)
        ensures
            index >= self@.len() ==> r == Err::<String, OtpError>(OtpError::IndexOutOfRange),
            index < self@.len() && self@[index as int].code is None ==> r == Err::<
                String,
                OtpError,
            >(OtpError::ComputationError),
            index < self@.len() && self@[index as int].code is Some ==> (r matches Ok(c)
                && c@ == self@[index as int].code->0),
    {
        if index < self.elements.len() {
            match &self.elements[index].code {
                Option::Some(c) => Ok(c.clone()),
                Option::None => Err(OtpError::ComputationError),
            }
        } else {
            Err(OtpError::IndexOutOfRange)
        }
    }

    /// Saturating increment of the counter of the record at `index`; fails
    /// when the index is stale.
    pub fn increment_counter(&mut self, index: usize) -> (r: Result<(), OtpError>)
        ensures
            r is Ok <==> index < old(self)@.len(),
            r is Ok ==> final(self)@ =~= old(self)@.update(
                index as int,
                with_counter(
                    old(self)@[index as int],
                    (if old(self)@[index as int].counter == u64::MAX {
                        u64::MAX as int
                    } else {
                        old(self)@[index as int].counter + 1
                    }) as u64,
                ),
            ),
            r is Err ==> r == Err::<(), OtpError>(OtpError::IndexOutOfRange) && final(self)@
                == old(self)@,
    {
        if index < self.elements.len() {
            let e = &self.elements[index];
            let updated = OTPElement {
                issuer: e.issuer.clone(),
                label: e.label.clone(),
                secret: e.secret.clone(),
                counter: e.counter.saturating_add(1),
                code: match &e.code {
                    Option::Some(c) => Option::Some(c.clone()),
                    Option::None => Option::None,
                },
            };
            self.elements.remove(index);
            self.elements.insert(index, updated);
            Ok(())
        } else {
            Err(OtpError::IndexOutOfRange)
        }
    }

    /// Saturating decrement of the counter of the record at `index`; fails
    /// when the index is stale.
    pub fn decrement_counter(&mut self, index: usize) -> (r: Result<(), OtpError>)
        ensures
            r is Ok <==> index < old(self)@.len(),
            r is Ok ==> final(self)@ =~= old(self)@.update(
                index as int,
                with_counter(
                    old(self)@[index as int],
                    (if old(self)@[index as int].counter == 0 {
                        0 as int
                    } else {
                        old(self)@[index as int].counter - 1
                    }) as u64,
                ),
            ),
            r is Err ==> r == Err::<(), OtpError>(OtpError::IndexOutOfRange) && final(self)@
                == old(self)@,
    {
        if index < self.elements.len() {
            let e = &self.elements[index];
            let updated = OTPElement {
                issuer: e.issuer.clone(),
                label: e.label.clone(),
                secret: e.secret.clone(),
                counter: e.counter.saturating_sub(1),
                code: match &e.code {
                    Option::Some(c) => Option::Some(c.clone()),
                    Option::None => Option::None,
                },
            };
            self.elements.remove(index);
            self.elements.insert(index, updated);
            Ok(())
        } else {
            Err(OtpError::IndexOutOfRange)
        }
    }
}

} // verus!
