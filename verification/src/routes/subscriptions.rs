//! The subscription handler and the persistence operation behind it: decoding
//! the submitted form, building the row for the single insert statement, and
//! turning the store's answer into a status.

use crate::clock::Timestamp;
use crate::error::{filed_under, Error, ErrorView, StoreFailure, StoreFailureView};
use crate::http::StatusCode;
use crate::id::Uuid;
use vstd::prelude::*;

verus! {

/// The content type that a form submission must announce.
pub const FORM_CONTENT_TYPE: &'static str = "application/x-www-form-urlencoded";

/// The statement that stores one subscriber; its four parameters are the
/// fields of a `Subscriber`, in their order.
pub const INSERT_STATEMENT: &'static str =
    "INSERT INTO subscriptions (id, email, name, subscribed_at) VALUES ($1, $2, $3, $4)";

/// A submitted subscription form.
#[derive(Clone, Debug, PartialEq, Eq)]
pub struct FormData {
    pub email: String,
    pub name: String,
}

/// What a `FormData` holds, as mathematical values.
pub struct FormDataView {
    pub email: Seq<char>,
    pub name: Seq<char>,
}

impl View for FormData {
    type V = FormDataView;

    open spec fn view(&self) -> FormDataView {
        FormDataView { email: self.email@, name: self.name@ }
    }
}

/// The two fields of the form.
#[derive(Clone, Copy, Debug, PartialEq, Eq, Structural)]
pub enum Field {
    Email,
    Name,
}

impl Field {
    /// The key under which the field is submitted.
    pub open spec fn key(self) -> Seq<char> {
        match self {
            Field::Email => "email"@,
            Field::Name => "name"@,
        }
    }

    pub fn as_str(&self) -> (key: &'static str)
        ensures
            key@ == self.key(),
    {
        match self {
            Field::Email => "email",
            Field::Name => "name",
        }
    }
}

/// Why a submission is turned away before the store is asked anything.
#[derive(Clone, Copy, Debug, PartialEq, Eq, Structural)]
pub enum ValidationError {
    /// The request does not announce a form body.
    ContentType,
    /// The body holds no pair for this field.
    MissingField(Field),
    /// The body holds a second pair for this field.
    DuplicateField(Field),
}

/// The pairs of names and values that the `form_urlencoded` crate reads from
/// a body, in the order of the body.
pub uninterp spec fn form_pairs(body: Seq<u8>) -> Seq<(Seq<char>, Seq<char>)>;

/// The pairs that a body holds. An empty body holds none.
pub open spec fn parsed(body: Seq<u8>) -> Seq<(Seq<char>, Seq<char>)> {
    if body.len() == 0 {
        Seq::empty()
    } else {
        form_pairs(body)
    }
}

/// Splits a body into its pairs with `form_urlencoded::parse`, which cuts it
/// at each `&`, drops empty pieces, cuts a piece at its first `=` and decodes
/// both halves: `+` stands for a space, `%` and two hexadecimal digits for a
/// byte, and bytes that are not UTF-8 become the replacement character. It
/// accepts every input.
///
/// Of all this the contract claims two things: that the pairs depend on the
/// bytes of the body alone, which is what the name `form_pairs` says, and
/// that an empty body has no pairs.
#[verifier::external_body]
fn parse_form(body: &[u8]) -> (pairs: Vec<(String, String)>)
    ensures
        pairs.deep_view() == form_pairs(body@),
        body@.len() == 0 ==> pairs@.len() == 0,
{
    ::form_urlencoded::parse(body).into_owned().collect()
}

/// Asks `str::starts_with` whether `text` begins with `prefix`. The contract
/// claims what the standard library documents: the answer is yes where
/// `prefix` matches a prefix of `text`, character for character.
#[verifier::external_body]
fn starts_with(text: &str, prefix: &str) -> (yes: bool)
    ensures
        yes == prefix@.is_prefix_of(text@),
{
    text.starts_with(prefix)
}

/// Whether a request with this `content-type` header announces a form body:
/// the header is there and begins with the form content type.
pub open spec fn is_form_content_type(content_type: Option<Seq<char>>) -> bool {
    match content_type {
        Some(text) => FORM_CONTENT_TYPE@.is_prefix_of(text),
        None => false,
    }
}

/// The pair at position `i` belongs to `field`.
pub open spec fn is_at(pairs: Seq<(Seq<char>, Seq<char>)>, field: Field, i: int) -> bool {
    0 <= i < pairs.len() && pairs[i].0 == field.key()
}

/// The pair at position `j` belongs to `field`, and so does an earlier one.
pub open spec fn repeats_at(pairs: Seq<(Seq<char>, Seq<char>)>, field: Field, j: int) -> bool {
    is_at(pairs, field, j) && exists|i: int| 0 <= i < j && is_at(pairs, field, i)
}

/// Position `j` is the first at which a field comes for the second time, and
/// that field is `field`.
pub open spec fn first_repeat(pairs: Seq<(Seq<char>, Seq<char>)>, field: Field, j: int) -> bool {
    repeats_at(pairs, field, j) && forall|k: int, other: Field|
        0 <= k < j ==> !repeats_at(pairs, other, k)
}

/// Some pair belongs to `field`.
pub open spec fn is_present(pairs: Seq<(Seq<char>, Seq<char>)>, field: Field) -> bool {
    exists|i: int| is_at(pairs, field, i)
}

/// Some field comes twice.
pub open spec fn has_repeat(pairs: Seq<(Seq<char>, Seq<char>)>) -> bool {
    exists|field: Field, j: int| first_repeat(pairs, field, j)
}

/// The field that is the first to come for the second time.
pub open spec fn first_repeated(pairs: Seq<(Seq<char>, Seq<char>)>) -> Field {
    (choose|field: Field, j: int| first_repeat(pairs, field, j)).0
}

/// The value of a pair that belongs to `field`.
pub open spec fn value_of(pairs: Seq<(Seq<char>, Seq<char>)>, field: Field) -> Seq<char> {
    pairs[choose|i: int| is_at(pairs, field, i)].1
}

/// The form that a sequence of pairs stands for. Each of the two fields must
/// come exactly once; pairs with other names are passed over. The pairs are
/// read in order, so a field that comes twice is reported where its second
/// pair stands, before any field is found missing; of two missing fields the
/// email is reported.
pub open spec fn decoded(pairs: Seq<(Seq<char>, Seq<char>)>) -> Result<
    FormDataView,
    ValidationError,
> {
    if has_repeat(pairs) {
        Err(ValidationError::DuplicateField(first_repeated(pairs)))
    } else if !is_present(pairs, Field::Email) {
        Err(ValidationError::MissingField(Field::Email))
    } else if !is_present(pairs, Field::Name) {
        Err(ValidationError::MissingField(Field::Name))
    } else {
        Ok(
            FormDataView {
                email: value_of(pairs, Field::Email),
                name: value_of(pairs, Field::Name),
            },
        )
    }
}

/// The form that a request body stands for, given the request's
/// `content-type` header.
pub open spec fn decoded_body(content_type: Option<Seq<char>>, body: Seq<u8>) -> Result<
    FormDataView,
    ValidationError,
> {
    if is_form_content_type(content_type) {
        decoded(parsed(body))
    } else {
        Err(ValidationError::ContentType)
    }
}

/// The pair at position `k`, before position `end`, belongs to `field` and
/// has the value `value`.
pub open spec fn is_read_at(
    pairs: Seq<(Seq<char>, Seq<char>)>,
    field: Field,
    end: int,
    value: Seq<char>,
    k: int,
) -> bool {
    0 <= k < end && is_at(pairs, field, k) && pairs[k].1 == value
}

/// The two keys differ, so a pair belongs to one field at most.
pub proof fn lemma_keys_differ()
    ensures
        Field::Email.key() != Field::Name.key(),
{
    reveal_strlit("email");
    reveal_strlit("name");
    assert("email"@.len() == 5);
    assert("name"@.len() == 4);
}

/// Where `field` comes for the second time at `j` and no field does so
/// earlier, the pairs stand for no form: the duplicate is reported.
pub proof fn lemma_decoded_duplicate(pairs: Seq<(Seq<char>, Seq<char>)>, field: Field, j: int)
    requires
        first_repeat(pairs, field, j),
    ensures
        decoded(pairs) == Err::<FormDataView, ValidationError>(
            ValidationError::DuplicateField(field),
        ),
{
    lemma_keys_differ();
    let (f, k) = choose|f: Field, k: int| first_repeat(pairs, f, k);
    assert(first_repeat(pairs, f, k));
    if k < j {
        assert(!repeats_at(pairs, f, k));
    }
    if j < k {
        assert(!repeats_at(pairs, field, j));
    }
    assert(k == j);
    assert(f == field);
}

/// Where no field comes twice, a field that is present has one value.
pub proof fn lemma_value_of_unique(pairs: Seq<(Seq<char>, Seq<char>)>, field: Field, i: int)
    requires
        !has_repeat(pairs),
        is_at(pairs, field, i),
    ensures
        value_of(pairs, field) == pairs[i].1,
{
    let c = choose|c: int| is_at(pairs, field, c);
    assert(is_at(pairs, field, c));
    if c != i {
        let later = if c < i { i } else { c };
        assert(repeats_at(pairs, field, later));
        lemma_some_first_repeat(pairs, field, later);
    }
}

/// Where a field comes for the second time, some field does so first.
pub proof fn lemma_some_first_repeat(pairs: Seq<(Seq<char>, Seq<char>)>, field: Field, j: int)
    requires
        repeats_at(pairs, field, j),
    ensures
        has_repeat(pairs),
    decreases j,
{
    if exists|k: int, other: Field| 0 <= k < j && repeats_at(pairs, other, k) {
        let (k, other) = choose|k: int, other: Field| 0 <= k < j && repeats_at(pairs, other, k);
        lemma_some_first_repeat(pairs, other, k);
    } else {
        assert(first_repeat(pairs, field, j));
    }
}

/// Pairs in which the email stands at position `i` and nowhere else, and the
/// name at position `j` and nowhere else, stand for the form with the values
/// of these two pairs.
pub proof fn lemma_decoded_once_each(pairs: Seq<(Seq<char>, Seq<char>)>, i: int, j: int)
    requires
        is_at(pairs, Field::Email, i),
        is_at(pairs, Field::Name, j),
        forall|k: int| is_at(pairs, Field::Email, k) ==> k == i,
        forall|k: int| is_at(pairs, Field::Name, k) ==> k == j,
    ensures
        decoded(pairs) == Ok::<FormDataView, ValidationError>(
            FormDataView { email: pairs[i].1, name: pairs[j].1 },
        ),
{
    if has_repeat(pairs) {
        let (field, at) = choose|field: Field, at: int| first_repeat(pairs, field, at);
        let before = choose|before: int| 0 <= before < at && is_at(pairs, field, before);
        match field {
            Field::Email => {
                assert(is_at(pairs, Field::Email, at) && is_at(pairs, Field::Email, before));
            },
            Field::Name => {
                assert(is_at(pairs, Field::Name, at) && is_at(pairs, Field::Name, before));
            },
        }
    }
    lemma_value_of_unique(pairs, Field::Email, i);
    lemma_value_of_unique(pairs, Field::Name, j);
}

/// Pairs stand for a form only where each of the two fields is present and
/// none comes twice.
pub proof fn lemma_decoded_ok_only_once_each(pairs: Seq<(Seq<char>, Seq<char>)>)
    ensures
        decoded(pairs) is Ok <==> is_present(pairs, Field::Email) && is_present(
            pairs,
            Field::Name,
        ) && !has_repeat(pairs),
        has_repeat(pairs) <==> exists|field: Field, j: int| repeats_at(pairs, field, j),
{
    if exists|field: Field, j: int| repeats_at(pairs, field, j) {
        let (field, j) = choose|field: Field, j: int| repeats_at(pairs, field, j);
        lemma_some_first_repeat(pairs, field, j);
    }
    if has_repeat(pairs) {
        let (field, j) = choose|field: Field, j: int| first_repeat(pairs, field, j);
        assert(repeats_at(pairs, field, j));
    }
}

impl FormData {
    /// Reads a form from pairs of names and values.
    pub fn from_pairs(pairs: &Vec<(String, String)>) -> (res: Result<FormData, ValidationError>)
        ensures
            match res {
                Ok(form) => decoded(pairs.deep_view()) == Ok::<FormDataView, ValidationError>(
                    form@,
                ),
                Err(e) => decoded(pairs.deep_view()) == Err::<FormDataView, ValidationError>(e),
            },
    {
        let ghost ps = pairs.deep_view();
        let email_key = Field::Email.as_str().to_owned();
        let name_key = Field::Name.as_str().to_owned();
        let mut email: Option<String> = None;
        let mut name: Option<String> = None;
        let ghost mut email_at: int = 0;
        let ghost mut name_at: int = 0;
        let n = pairs.len();
        let mut i: usize = 0;
        proof {
            lemma_keys_differ();
        }
        while i < n
            invariant
                i <= n,
                n == pairs.len(),
                ps == pairs.deep_view(),
                ps.len() == n,
                email_key@ == Field::Email.key(),
                name_key@ == Field::Name.key(),
                Field::Email.key() != Field::Name.key(),
                forall|k: int, f: Field| 0 <= k < i ==> !repeats_at(ps, f, k),
                match email {
                    Some(v) => is_read_at(ps, Field::Email, i as int, v@, email_at),
                    None => forall|k: int| 0 <= k < i ==> !is_at(ps, Field::Email, k),
                },
                match name {
                    Some(v) => is_read_at(ps, Field::Name, i as int, v@, name_at),
                    None => forall|k: int| 0 <= k < i ==> !is_at(ps, Field::Name, k),
                },
            decreases n - i,
        {
            assert(ps[i as int] == (pairs[i as int].0@, pairs[i as int].1@));
            if pairs[i].0 == email_key {
                assert(is_at(ps, Field::Email, i as int));
                if email.is_some() {
                    proof {
                        assert(repeats_at(ps, Field::Email, i as int));
                        assert(first_repeat(ps, Field::Email, i as int));
                        lemma_decoded_duplicate(ps, Field::Email, i as int);
                    }
                    return Err(ValidationError::DuplicateField(Field::Email));
                }
                email = Some(pairs[i].1.clone());
                proof {
                    email_at = i as int;
                }
                assert(!is_at(ps, Field::Name, i as int));
                assert forall|f: Field| !repeats_at(ps, f, i as int) by {}
            } else if pairs[i].0 == name_key {
                assert(is_at(ps, Field::Name, i as int));
                if name.is_some() {
                    proof {
                        assert(repeats_at(ps, Field::Name, i as int));
                        assert(first_repeat(ps, Field::Name, i as int));
                        lemma_decoded_duplicate(ps, Field::Name, i as int);
                    }
                    return Err(ValidationError::DuplicateField(Field::Name));
                }
                name = Some(pairs[i].1.clone());
                proof {
                    name_at = i as int;
                }
                assert(!is_at(ps, Field::Email, i as int));
                assert forall|f: Field| !repeats_at(ps, f, i as int) by {}
            } else {
                assert forall|f: Field| !is_at(ps, f, i as int) by {}
            }
            i = i + 1;
        }
        assert(!has_repeat(ps));
        match email {
            None => {
                assert(!is_present(ps, Field::Email));
                Err(ValidationError::MissingField(Field::Email))
            },
            Some(email) => match name {
                None => {
                    assert(!is_present(ps, Field::Name));
                    assert(is_present(ps, Field::Email));
                    Err(ValidationError::MissingField(Field::Name))
                },
                Some(name) => {
                    proof {
                        lemma_value_of_unique(ps, Field::Email, email_at);
                        lemma_value_of_unique(ps, Field::Name, name_at);
                    }
                    Ok(FormData { email, name })
                },
            },
        }
    }

    /// Decodes a request body as a form, after checking that the request
    /// announces one.
    pub fn decode(content_type: &Option<String>, body: &[u8]) -> (res: Result<
        FormData,
        ValidationError,
    >)
        ensures
            match res {
                Ok(form) => decoded_body(
                    match content_type {
                        Some(text) => Some(text@),
                        None => None,
                    },
                    body@,
                ) == Ok::<FormDataView, ValidationError>(form@),
                Err(e) => decoded_body(
                    match content_type {
                        Some(text) => Some(text@),
                        None => None,
                    },
                    body@,
                ) == Err::<FormDataView, ValidationError>(e),
            },
    {
        let announced = match content_type {
            Some(text) => starts_with(text.as_str(), FORM_CONTENT_TYPE),
            None => false,
        };
        if !announced {
            return Err(ValidationError::ContentType);
        }
        let pairs = parse_form(body);
        FormData::from_pairs(&pairs)
    }
}

/// One row of the `subscriptions` table.
#[derive(Clone, Debug, PartialEq, Eq)]
pub struct Subscriber {
    /// The primary key: made by the service for this row alone.
    pub id: Uuid,
    pub email: String,
    pub name: String,
    /// The time in UTC at which the row was made.
    pub subscribed_at: Timestamp,
}

/// What a `Subscriber` holds, as mathematical values.
pub struct SubscriberView {
    pub id: Uuid,
    pub email: Seq<char>,
    pub name: Seq<char>,
    pub subscribed_at: Timestamp,
}

impl View for Subscriber {
    type V = SubscriberView;

    open spec fn view(&self) -> SubscriberView {
        SubscriberView {
            id: self.id,
            email: self.email@,
            name: self.name@,
            subscribed_at: self.subscribed_at,
        }
    }
}

/// The row that stores a form under the given identifier at the given time.
pub open spec fn new_row(id: Uuid, form: FormDataView, at: Timestamp) -> SubscriberView {
    SubscriberView { id, email: form.email, name: form.name, subscribed_at: at }
}

impl Subscriber {
    /// The row that stores a form under the given identifier at the given
    /// time.
    pub fn new(id: Uuid, form: FormData, at: Timestamp) -> (row: Subscriber)
        ensures
            row@ == new_row(id, form@, at),
    {
        Subscriber { id, email: form.email, name: form.name, subscribed_at: at }
    }
}

/// The persistence operation, before the store is asked: the one row that
/// the insert statement is to store for this form. Its identifier is drawn
/// afresh and its time is the reading of the clock, a well-formed time;
/// email and name are the form's.
pub fn insert_subscriber(form: FormData) -> (row: Subscriber)
    ensures
        row@ == new_row(row.id, form@, row.subscribed_at),
        row.id.is_random(),
        row.subscribed_at.is_well_formed(),
{
    Subscriber::new(Uuid::new_v4(), form, Timestamp::now())
}

/// What the store answered to the insert statement, as mathematical values.
pub open spec fn outcome_view(outcome: Result<(), StoreFailure>) -> Result<(), StoreFailureView> {
    match outcome {
        Ok(()) => Ok(()),
        Err(failure) => Err(failure@),
    }
}

/// What the persistence operation reports, as mathematical values.
pub open spec fn result_view(result: Result<(), Error>) -> Result<(), ErrorView> {
    match result {
        Ok(()) => Ok(()),
        Err(err) => Err(err@),
    }
}

/// Where a failure of the insert is filed. An insert looks nothing up, so
/// `NotFound` is not for it: a driver that reports a missing row here has
/// met something unexpected, which is filed under `Internal`. Every other
/// failure is filed as `filed_under` says. The detail is kept.
pub open spec fn filed_on_write(failure: StoreFailureView) -> ErrorView {
    match filed_under(failure) {
        ErrorView::NotFound(detail) => ErrorView::Internal(detail),
        other => other,
    }
}

/// What the persistence operation reports for an answer of the store.
pub open spec fn inserted(outcome: Result<(), StoreFailureView>) -> Result<(), ErrorView> {
    match outcome {
        Ok(()) => Ok(()),
        Err(failure) => Err(filed_on_write(failure)),
    }
}

/// The persistence operation, after the store has answered: success stays
/// success, and a failure is filed under the error taxonomy with its detail,
/// as `DatabaseError` or `Internal` and never as `NotFound`.
pub fn insert_result(outcome: Result<(), StoreFailure>) -> (result: Result<(), Error>)
    ensures
        result_view(result) == inserted(outcome_view(outcome)),
        !(result matches Err(Error::NotFound(_))),
{
    match outcome {
        Ok(()) => Ok(()),
        Err(failure) => match Error::from(failure) {
            Error::NotFound(detail) => Err(Error::Internal(detail)),
            other => Err(other),
        },
    }
}

/// The status that answers a submission once the persistence operation has
/// reported.
pub open spec fn subscribed(result: Result<(), ErrorView>) -> StatusCode {
    match result {
        Ok(()) => StatusCode::Success,
        Err(_) => StatusCode::InternalServerError,
    }
}

/// The subscription handler's answer: 200 where the row was stored, 500 on
/// any error, whatever its kind. Nothing of the error goes into the answer.
pub fn subscribe(result: &Result<(), Error>) -> (status: StatusCode)
    ensures
        status == subscribed(result_view(*result)),
{
    match result {
        Ok(()) => StatusCode::Success,
        Err(_) => StatusCode::InternalServerError,
    }
}

} // verus!
