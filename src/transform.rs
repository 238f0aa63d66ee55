use vstd::prelude::*;

use crate::extract::{DecodeCause, ExtractError, Extractor};

verus! {

/// The age band of a person.
#[derive(Debug, Clone, Copy, PartialEq, Eq, Structural)]
pub enum AgeGroup {
    Child,
    Teen,
    Adult,
    Senior,
}

/// Whether `age` lies in the inclusive range of band `g`.
pub open spec fn band_contains(g: AgeGroup, age: int) -> bool {
    match g {
        AgeGroup::Child => 0 <= age <= 12,
        AgeGroup::Teen => 13 <= age <= 19,
        AgeGroup::Adult => 20 <= age <= 59,
        AgeGroup::Senior => 60 <= age <= 100,
    }
}

/// The band of `age`, or `None` for an age outside `0..=100`.
pub open spec fn age_group_of(age: int) -> Option<AgeGroup> {
    if 0 <= age <= 12 {
        Some(AgeGroup::Child)
    } else if 13 <= age <= 19 {
        Some(AgeGroup::Teen)
    } else if 20 <= age <= 59 {
        Some(AgeGroup::Adult)
    } else if 60 <= age <= 100 {
        Some(AgeGroup::Senior)
    } else {
        None
    }
}

/// The four bands partition `0..=100` exactly: an age in that range lies in
/// exactly one band, which is the one it is classified in, and an age outside
/// it lies in none and has no class.
pub proof fn age_bands_partition(age: int)
    ensures
        (0 <= age <= 100) <==> age_group_of(age) is Some,
        (0 <= age <= 100) <==> exists|g: AgeGroup| band_contains(g, age),
        forall|g: AgeGroup| #[trigger] band_contains(g, age) <==> age_group_of(age) == Some(g),
{
    if 0 <= age <= 100 {
        let g = age_group_of(age).unwrap();
        assert(band_contains(g, age));
    }
}

/// A person record as the logic sees it.
pub struct PersonView {
    pub name: Seq<char>,
    pub age: u8,
    pub age_group: Option<AgeGroup>,
}

/// The record with its band recomputed from its age.
pub open spec fn classified(p: PersonView) -> PersonView {
    PersonView { age_group: age_group_of(p.age as int), ..p }
}

/// Whether the age of the record can be classified.
pub open spec fn valid_age(p: PersonView) -> bool {
    age_group_of(p.age as int) is Some
}

/// A person: a name, an age, and the band of that age once computed.
#[derive(Debug, Clone)]
pub struct Person {
    name: String,
    age: u8,
    age_group: Option<AgeGroup>,
}

impl View for Person {
    type V = PersonView;

    closed spec fn view(&self) -> PersonView {
        PersonView { name: self.name@, age: self.age, age_group: self.age_group }
    }
}

impl Person {
    /// The band, where set, is the band of the age.
    pub open spec fn wf(&self) -> bool {
        self@.age_group is None || self@.age_group == age_group_of(self@.age as int)
    }

    /// A record not yet classified.
    pub fn new(name: String, age: u8) -> (r: Person)
        ensures
            r@ == (PersonView { name: name@, age, age_group: None }),
            r.wf(),
    {
        Person { name, age, age_group: None }
    }

    /// The name.
    pub fn name(&self) -> (r: &str)
        ensures
            r@ == self@.name,
    {
        self.name.as_str()
    }

    /// The age.
    pub fn age(&self) -> (r: u8)
        ensures
            r == self@.age,
    {
        self.age
    }

    /// The band, once computed.
    pub fn age_group(&self) -> (r: Option<AgeGroup>)
        ensures
            r == self@.age_group,
    {
        self.age_group
    }

    /// A copy of the record, field for field.
    fn snapshot(&self) -> (r: Person)
        ensures
            r@ == self@,
    {
        Person { name: self.name.clone(), age: self.age, age_group: self.age_group }
    }
}

/// A list of records in the order of the source.
#[derive(Debug)]
pub struct PersonList(pub Vec<Person>);

/// A failed transformation. Each layer names what was attempted and holds the
/// failure that caused it.
#[derive(Debug)]
pub enum TransformError {
    /// Classifying the record failed; holds the record as it was.
    AddAgeGroup(Person, Box<TransformError>),
    /// The age lies outside `0..=100`.
    ExceptionalAge(u8),
    /// Transforming the file at the path failed.
    TransformFile(String, Box<TransformError>),
    /// Transforming a text failed.
    TransformString(Box<TransformError>),
    /// The decoded value is not a list of person records; holds the decoder's report.
    ConvertExtractOutput(DecodeCause),
    /// The text could not be extracted.
    Extract(ExtractError),
}

impl TransformError {
    /// The last link of the chain of causes.
    pub open spec fn root(self) -> TransformError
        decreases self,
    {
        match self {
            TransformError::AddAgeGroup(_, c) => (*c).root(),
            TransformError::TransformFile(_, c) => (*c).root(),
            TransformError::TransformString(c) => (*c).root(),
            _ => self,
        }
    }

    /// Walks the chain of causes down to its last link.
    pub fn root_cause(&self) -> (r: &TransformError)
        ensures
            *r == self.root(),
        decreases self,
    {
        match self {
            TransformError::AddAgeGroup(_, c) => c.root_cause(),
            TransformError::TransformFile(_, c) => c.root_cause(),
            TransformError::TransformString(c) => c.root_cause(),
            _ => self,
        }
    }
}

/// Whether `e` is the failure of classifying record `p`.
pub open spec fn is_age_failure(e: TransformError, p: PersonView) -> bool {
    e matches TransformError::AddAgeGroup(q, c) && q@ == p && *c
        == TransformError::ExceptionalAge(p.age)
}

impl AgeGroup {
    /// The band of `age`; an age over 100 is refused.
    pub fn from_age(age: u8) -> (r: Result<AgeGroup, TransformError>)
        ensures
            r is Ok <==> age_group_of(age as int) is Some,
            r matches Ok(g) ==> age_group_of(age as int) == Some(g),
            r matches Err(e) ==> e == TransformError::ExceptionalAge(age),
    {
        if age <= 12 {
            Ok(AgeGroup::Child)
        } else if age <= 19 {
            Ok(AgeGroup::Teen)
        } else if age <= 59 {
            Ok(AgeGroup::Adult)
        } else if age <= 100 {
            Ok(AgeGroup::Senior)
        } else {
            Err(TransformError::ExceptionalAge(age))
        }
    }
}

/// Every record has an age that can be classified.
pub open spec fn all_valid(ps: Seq<Person>) -> bool {
    forall|i: int| 0 <= i < ps.len() ==> valid_age(#[trigger] ps[i]@)
}

/// `v` holds the records of `ps`, in order, each classified.
pub open spec fn all_classified(ps: Seq<Person>, v: Seq<Person>) -> bool {
    v.len() == ps.len() && forall|i: int| 0 <= i < ps.len() ==> #[trigger] v[i]@ == classified(ps[i]@)
}

/// `e` is the failure of classifying the first record of `ps` whose age
/// cannot be classified.
pub open spec fn fails_first(ps: Seq<Person>, e: TransformError) -> bool {
    exists|k: int|
        0 <= k < ps.len() && !valid_age(#[trigger] ps[k]@) && (forall|i: int|
            0 <= i < k ==> valid_age(#[trigger] ps[i]@)) && is_age_failure(e, ps[k]@)
}

/// A fail-fast failure over a list names exactly the first record whose age
/// cannot be classified: if `k` is that index, the failure holds record `k`
/// as it was, and its age.
pub proof fn failure_names_first_invalid(ps: Seq<Person>, e: TransformError, k: int)
    requires
        fails_first(ps, e),
        0 <= k < ps.len(),
        !valid_age(ps[k]@),
        forall|i: int| 0 <= i < k ==> valid_age(#[trigger] ps[i]@),
    ensures
        is_age_failure(e, ps[k]@),
{
    let j = choose|j: int|
        0 <= j < ps.len() && !valid_age(#[trigger] ps[j]@) && (forall|i: int|
            0 <= i < j ==> valid_age(#[trigger] ps[i]@)) && is_age_failure(e, ps[j]@);
    if j < k {
        assert(valid_age(ps[j]@));
    } else if k < j {
        assert(valid_age(ps[k]@));
    }
}

/// Where the text of a transformation came from.
#[derive(Debug)]
pub enum Origin {
    /// A file at this path.
    File(String),
    /// A text handed over in memory.
    Text,
}

/// `e` wrapped in the layer that names the origin.
pub open spec fn in_origin(origin: Origin, e: TransformError) -> TransformError {
    match origin {
        Origin::File(path) => TransformError::TransformFile(path, Box::new(e)),
        Origin::Text => TransformError::TransformString(Box::new(e)),
    }
}

/// Turns decoded documents into classified person records.
#[derive(Debug, Default)]
pub struct Transform {
    pub extractor: Extractor,
}

impl Transform {
    /// Sets the band of the record from its age. On an age outside `0..=100`
    /// the record is left as it was and the failure holds a copy of it.
    pub fn add_age_group(&self, person: &mut Person) -> (r: Result<(), TransformError>)
        ensures
            r is Ok <==> valid_age(old(person)@),
            r is Ok ==> final(person)@ == classified(old(person)@),
            r matches Err(e) ==> is_age_failure(e, old(person)@) && final(person)@ == old(
                person,
            )@,
            old(person).wf() ==> final(person).wf(),
    {
        match AgeGroup::from_age(person.age) {
            Ok(g) => {
                person.age_group = Some(g);
                Ok(())
            },
            Err(e) => Err(TransformError::AddAgeGroup(person.snapshot(), Box::new(e))),
        }
    }

    /// Classifies every record in order. At the first record whose age is
    /// outside `0..=100` it stops and fails with that record as it was; no
    /// record is returned then.
    pub fn add_age_groups(&self, persons: Vec<Person>) -> (r: Result<Vec<Person>, TransformError>)
        ensures
            r is Ok <==> all_valid(persons@),
            r matches Ok(v) ==> all_classified(persons@, v@),
            r matches Err(e) ==> fails_first(persons@, e),
    {
        let mut out: Vec<Person> = Vec::new();
        let mut i: usize = 0;
        while i < persons.len()
            invariant
                i <= persons@.len(),
                out@.len() == i,
                forall|j: int| 0 <= j < i ==> valid_age(#[trigger] persons@[j]@),
                forall|j: int| 0 <= j < i ==> #[trigger] out@[j]@ == classified(persons@[j]@),
            decreases persons@.len() - i,
        {
            let mut p = persons[i].snapshot();
            match self.add_age_group(&mut p) {
                Ok(()) => {
                    out.push(p);
                },
                Err(e) => {
                    return Err(e);
                },
            }
            i = i + 1;
        }
        Ok(out)
    }

    /// Finishes a transformation from the decoded records, or from the failure
    /// that came before them: the records are classified in order, and any
    /// failure is wrapped in the layer that names the origin.
    pub fn transform_records(
        &self,
        origin: Origin,
        records: Result<Vec<Person>, TransformError>,
    ) -> (r: Result<Vec<Person>, TransformError>)
        ensures
            match records {
                Ok(ps) => match r {
                    Ok(v) => all_valid(ps@) && all_classified(ps@, v@),
                    Err(e) => exists|c: TransformError|
                        fails_first(ps@, c) && e == #[trigger] in_origin(origin, c),
                },
                Err(c) => r == Err::<Vec<Person>, TransformError>(in_origin(origin, c)),
            },
    {
        match records {
            Ok(ps) => match self.add_age_groups(ps) {
                Ok(v) => Ok(v),
                Err(c) => {
                    let e = wrap_in_origin(origin, c);
                    assert(in_origin(origin, c) == e);
                    Err(e)
                },
            },
            Err(c) => Err(wrap_in_origin(origin, c)),
        }
    }
}

/// Wraps `e` in the layer that names the origin.
fn wrap_in_origin(origin: Origin, e: TransformError) -> (r: TransformError)
    ensures
        r == in_origin(origin, e),
{
    match origin {
        Origin::File(path) => TransformError::TransformFile(path, Box::new(e)),
        Origin::Text => TransformError::TransformString(Box::new(e)),
    }
}

} // verus!
