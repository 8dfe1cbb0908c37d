//! The request model and the planned record set: which records an update
//! request asks for, in which order, and the fallback drawn from the
//! caller's observed address.

use vstd::prelude::*;

verus! {

/// A DNS record type handled by the reconciliation engine.
#[derive(Clone, Copy, PartialEq, Eq, Structural, Debug)]
pub enum RecordType {
    A,
    Aaaa,
    Txt,
}

impl RecordType {
    /// The provider-facing name of the record type.
    pub open spec fn spec_name(self) -> Seq<char> {
        match self {
            RecordType::A => "A"@,
            RecordType::Aaaa => "AAAA"@,
            RecordType::Txt => "TXT"@,
        }
    }

    /// The provider-facing name of the record type.
    pub fn name(&self) -> (r: &'static str)
        ensures
            r@ == self.spec_name(),
    {
        match self {
            RecordType::A => "A",
            RecordType::Aaaa => "AAAA",
            RecordType::Txt => "TXT",
        }
    }
}

/// One desired record: a type and the content to set for it.
pub struct RecordSpec {
    pub record_type: RecordType,
    pub content: String,
}

impl View for RecordSpec {
    type V = (RecordType, Seq<char>);

    open spec fn view(&self) -> (RecordType, Seq<char>) {
        (self.record_type, self.content@)
    }
}

impl RecordSpec {
    /// An owned copy with the same type and content.
    pub fn duplicate(&self) -> (r: Self)
        ensures
            r@ == self@,
    {
        RecordSpec { record_type: self.record_type, content: self.content.clone() }
    }
}

/// The views of a sequence of owned records.
pub open spec fn rec_views(rs: Seq<RecordSpec>) -> Seq<(RecordType, Seq<char>)> {
    rs.map_values(|r: RecordSpec| r@)
}

/// The network address the transport layer attributes to the caller,
/// carried as the address text together with whether it is IPv4-form.
pub struct ObservedAddress {
    pub ipv4: bool,
    pub text: String,
}

/// One inbound update request, as handed over by the transport layer.
pub struct UpdateRequest {
    pub token: Option<String>,
    pub subdomain: Option<String>,
    pub a: Option<String>,
    pub aaaa: Option<String>,
    pub txt: Option<String>,
    pub clear: Option<bool>,
}

/// The view of an optional owned string.
pub open spec fn opt_view(o: Option<String>) -> Option<Seq<char>> {
    match o {
        Option::Some(s) => Option::Some(s@),
        Option::None => Option::None,
    }
}

/// The record type of the fallback record for an observed address.
pub open spec fn fallback_type(ipv4: bool) -> RecordType {
    if ipv4 {
        RecordType::A
    } else {
        RecordType::Aaaa
    }
}

/// The records the request names explicitly, in the fixed order A, AAAA, TXT.
pub open spec fn explicit_records(
    a: Option<Seq<char>>,
    aaaa: Option<Seq<char>>,
    txt: Option<Seq<char>>,
) -> Seq<(RecordType, Seq<char>)> {
    (match a {
        Option::Some(c) => seq![(RecordType::A, c)],
        Option::None => Seq::<(RecordType, Seq<char>)>::empty(),
    }) + (match aaaa {
        Option::Some(c) => seq![(RecordType::Aaaa, c)],
        Option::None => Seq::<(RecordType, Seq<char>)>::empty(),
    }) + (match txt {
        Option::Some(c) => seq![(RecordType::Txt, c)],
        Option::None => Seq::<(RecordType, Seq<char>)>::empty(),
    })
}

/// The full planned record set: the explicit records, and, when neither `a`
/// nor `aaaa` was supplied, exactly one fallback record holding the observed
/// address, typed by whether that address is IPv4-form.  TXT is never
/// auto-filled.
pub open spec fn planned_records(
    a: Option<Seq<char>>,
    aaaa: Option<Seq<char>>,
    txt: Option<Seq<char>>,
    ipv4: bool,
    addr: Seq<char>,
) -> Seq<(RecordType, Seq<char>)> {
    if a is None && aaaa is None {
        explicit_records(a, aaaa, txt) + seq![(fallback_type(ipv4), addr)]
    } else {
        explicit_records(a, aaaa, txt)
    }
}

/// Builds the ordered record set for a request: each of A, AAAA, TXT that the
/// request names, in that order, then the fallback record from the observed
/// address when neither `a` nor `aaaa` was given.
pub fn build_records(req: &UpdateRequest, observed: &ObservedAddress) -> (r: Vec<RecordSpec>)
    ensures
        rec_views(r@) == planned_records(
            opt_view(req.a),
            opt_view(req.aaaa),
            opt_view(req.txt),
            observed.ipv4,
            observed.text@,
        ),
{
    let mut records: Vec<RecordSpec> = Vec::new();
    if let Option::Some(content) = &req.a {
        records.push(RecordSpec { record_type: RecordType::A, content: content.clone() });
    }
    if let Option::Some(content) = &req.aaaa {
        records.push(RecordSpec { record_type: RecordType::Aaaa, content: content.clone() });
    }
    if let Option::Some(content) = &req.txt {
        records.push(RecordSpec { record_type: RecordType::Txt, content: content.clone() });
    }
    if req.a.is_none() && req.aaaa.is_none() {
        let record_type = if observed.ipv4 {
            RecordType::A
        } else {
            RecordType::Aaaa
        };
        records.push(RecordSpec { record_type, content: observed.text.clone() });
    }
    proof {
        assert(rec_views(records@) =~~= planned_records(
            opt_view(req.a),
            opt_view(req.aaaa),
            opt_view(req.txt),
            observed.ipv4,
            observed.text@,
        ));
    }
    records
}

/// When neither `a` nor `aaaa` is supplied, the planned record set ends with
/// exactly one fallback record holding the observed address — type A for an
/// IPv4 address, AAAA otherwise — and a supplied `txt` record is still
/// included, independently, ahead of it.
pub proof fn lemma_fallback_record(txt: Option<Seq<char>>, ipv4: bool, addr: Seq<char>)
    ensures
        ({
            let plan = planned_records(Option::None, Option::None, txt, ipv4, addr);
            match txt {
                Option::Some(t) => plan =~= seq![
                    (RecordType::Txt, t),
                    (fallback_type(ipv4), addr),
                ],
                Option::None => plan =~= seq![(fallback_type(ipv4), addr)],
            }
        }),
{
}

} // verus!
