//! Contacts from a CardDAV address book: how a contact is shown, how a
//! display name is split into first and last name, which address book is
//! used, and which contacts have a birthday coming up.

use vstd::prelude::*;

use crate::ids;
use crate::text;

verus! {

/// Errors of the contact service.
#[derive(Debug, Clone, PartialEq, Eq)]
pub enum ContactError {
    /// The server refused the credentials.
    AuthenticationFailed,
    /// The server cannot be reached (or its circuit is open).
    ServiceUnavailable,
    /// The address book does not exist.
    AddressbookNotFound(String),
    /// The contact does not exist.
    ContactNotFound(String),
    /// The operation failed.
    OperationFailed(String),
    /// The data given is not valid.
    InvalidData(String),
}

/// A contact as shown in a list.
#[derive(Debug, Clone)]
pub struct ContactSummary {
    /// Contact id (vCard UID).
    pub id: String,
    /// Name shown.
    pub display_name: String,
    /// Primary email.
    pub email: Option<String>,
    /// Primary phone number.
    pub phone: Option<String>,
    /// Organisation.
    pub organization: Option<String>,
}

/// The name shown for a contact: its full name, or `Unnamed` when it has none.
pub open spec fn shown_name(full_name: Seq<char>) -> Seq<char> {
    if full_name.len() == 0 {
        "Unnamed"@
    } else {
        full_name
    }
}

/// The view of an optional string slice.
pub open spec fn opt_str(o: Option<&str>) -> Option<Seq<char>> {
    match o {
        Some(s) => Some(s@),
        None => None,
    }
}

/// The view of an optional string.
pub open spec fn opt_string(o: Option<String>) -> Option<Seq<char>> {
    match o {
        Some(s) => Some(s@),
        None => None,
    }
}

fn owned_opt(o: Option<&str>) -> (r: Option<String>)
    ensures
        opt_string(r) == opt_str(o),
{
    match o {
        Some(s) => Some(text::owned(s)),
        None => None,
    }
}

/// The name shown for a contact (see `shown_name`).
pub fn display_name_for(full_name: &str) -> (r: String)
    ensures
        r@ == shown_name(full_name@),
{
    if full_name.is_empty() {
        text::owned("Unnamed")
    } else {
        text::owned(full_name)
    }
}

/// The list entry of a contact.
pub fn contact_summary(
    id: &str,
    full_name: &str,
    primary_email: Option<&str>,
    primary_phone: Option<&str>,
    organization: Option<&str>,
) -> (s: ContactSummary)
    ensures
        s.id@ == id@,
        s.display_name@ == shown_name(full_name@),
        opt_string(s.email) == opt_str(primary_email),
        opt_string(s.phone) == opt_str(primary_phone),
        opt_string(s.organization) == opt_str(organization),
{
    ContactSummary {
        id: text::owned(id),
        display_name: display_name_for(full_name),
        email: owned_opt(primary_email),
        phone: owned_opt(primary_phone),
        organization: owned_opt(organization),
    }
}

/// Position of the first space in `s`, if any.
pub open spec fn first_space(s: Seq<char>) -> Option<int>
    decreases s.len(),
{
    if s.len() == 0 {
        None
    } else if s[0] == ' ' {
        Some(0)
    } else {
        match first_space(s.drop_first()) {
            Some(i) => Some(i + 1),
            None => None,
        }
    }
}

proof fn lemma_first_space(s: Seq<char>, k: int)
    requires
        0 <= k <= s.len(),
        forall|j: int| 0 <= j < k ==> s[j] != ' ',
    ensures
        k == s.len() ==> first_space(s) is None,
        k < s.len() && s[k] == ' ' ==> first_space(s) == Some(k),
    decreases k,
{
    if k > 0 {
        lemma_first_space(s.drop_first(), k - 1);
    }
}

/// A display name split at its first space into first and last name; a name
/// without a space is not split.
pub open spec fn name_parts(name: Seq<char>) -> Option<(Seq<char>, Seq<char>)> {
    match first_space(name) {
        Some(i) => Some((name.take(i), name.skip(i + 1))),
        None => None,
    }
}

/// Splits a display name at its first space (see `name_parts`).
pub fn split_name(name: &str) -> (r: Option<(String, String)>)
    ensures
        match (r, name_parts(name@)) {
            (Some(p), Some(q)) => p.0@ == q.0 && p.1@ == q.1,
            (None, None) => true,
            _ => false,
        },
{
    let chars = text::chars_of(name);
    let mut k: usize = 0;
    while k < chars.len() && chars[k] != ' '
        invariant
            k <= chars.len(),
            chars@ == name@,
            forall|j: int| 0 <= j < k ==> chars@[j] != ' ',
        decreases chars.len() - k,
    {
        k = k + 1;
    }
    proof {
        lemma_first_space(chars@, k as int);
    }
    if k == chars.len() {
        return None;
    }
    let mut first: Vec<char> = Vec::new();
    let mut i: usize = 0;
    while i < k
        invariant
            i <= k < chars.len(),
            first@ == chars@.take(i as int),
        decreases k - i,
    {
        first.push(chars[i]);
        proof {
            assert(chars@.take(i + 1) =~= chars@.take(i as int).push(chars@[i as int]));
        }
        i = i + 1;
    }
    let rest = crate::secret_store::tail(&chars, k + 1);
    Some((text::string_from_chars(first.as_slice()), text::string_from_chars(rest.as_slice())))
}

/// First and last name of a new contact: those given; when neither is given,
/// the parts of the display name (if it has a space).
pub open spec fn new_contact_names(
    name: Seq<char>,
    first: Option<Seq<char>>,
    last: Option<Seq<char>>,
) -> (Option<Seq<char>>, Option<Seq<char>>) {
    if first is None && last is None {
        match name_parts(name) {
            Some(p) => (Some(p.0), Some(p.1)),
            None => (None, None),
        }
    } else {
        (first, last)
    }
}

/// First and last name of a new contact (see `new_contact_names`).
pub fn names_for_new_contact(name: &str, first: Option<&str>, last: Option<&str>) -> (r: (
    Option<String>,
    Option<String>,
))
    ensures
        (opt_string(r.0), opt_string(r.1)) == new_contact_names(name@, opt_str(first), opt_str(last)),
{
    if first.is_none() && last.is_none() {
        match split_name(name) {
            Some((f, l)) => (Some(f), Some(l)),
            None => (None, None),
        }
    } else {
        (owned_opt(first), owned_opt(last))
    }
}

/// The address book used: the configured one, else the first one the server
/// lists.
pub fn choose_addressbook(configured: Option<&str>, discovered: &Vec<String>) -> (r: Result<
    String,
    ContactError,
>)
    ensures
        match configured {
            Some(c) => r matches Ok(b) && b@ == c@,
            None => if discovered@.len() > 0 {
                r matches Ok(b) && b@ == discovered@[0]@
            } else {
                r matches Err(ContactError::AddressbookNotFound(m)) && m@
                    == "No addressbooks available"@
            },
        },
{
    match configured {
        Some(c) => Ok(text::owned(c)),
        None => {
            if discovered.len() > 0 {
                Ok(discovered[0].clone())
            } else {
                Err(ContactError::AddressbookNotFound(text::owned("No addressbooks available")))
            }
        },
    }
}

// ------------------------------------------------------------------
// Birthdays
// ------------------------------------------------------------------

/// The day number of a date (days since January 1 of year 1, which is day
/// 1), or `None` when there is no such date.
pub uninterp spec fn civil_day(year: i32, month: u32, day: u32) -> Option<i32>;

/// The day number of `year`-`month`-`day` with `NaiveDate::from_ymd_opt`,
/// converted with `Datelike::num_days_from_ce`.
///
/// Claimed: the result depends on the three numbers alone.
#[verifier::external_body]
fn day_number(year: i32, month: u32, day: u32) -> (r: Option<i32>)
    ensures
        r == civil_day(year, month, day),
{
    chrono::NaiveDate::from_ymd_opt(year, month, day).map(|d| chrono::Datelike::num_days_from_ce(&d))
}

/// The day of a birthday in `year`: the same month and day in that year, or
/// the birth date itself when that day does not exist then (29 February).
pub open spec fn birthday_in_year(birthday: (i32, u32, u32), year: i32) -> Option<i32> {
    match civil_day(year, birthday.1, birthday.2) {
        Some(n) => Some(n),
        None => civil_day(birthday.0, birthday.1, birthday.2),
    }
}

/// Whether a day lies from `start` to `start + days`, both included.
pub open spec fn in_range(n: Option<i32>, start: int, days: u32) -> bool {
    match n {
        Some(n) => start <= n && n <= start + days,
        None => false,
    }
}

/// Whether a birthday falls within `days` days from `today`: this year's or
/// next year's occurrence lies in the range.
pub open spec fn birthday_upcoming(birthday: (i32, u32, u32), today: (i32, u32, u32), days: u32) -> bool {
    match civil_day(today.0, today.1, today.2) {
        Some(t) => {
            ||| in_range(birthday_in_year(birthday, today.0), t as int, days)
            ||| today.0 < i32::MAX && in_range(
                birthday_in_year(birthday, (today.0 + 1) as i32),
                t as int,
                days,
            )
        },
        None => false,
    }
}

fn birthday_day(birthday: (i32, u32, u32), year: i32) -> (r: Option<i32>)
    ensures
        r == birthday_in_year(birthday, year),
{
    match day_number(year, birthday.1, birthday.2) {
        Some(n) => Some(n),
        None => day_number(birthday.0, birthday.1, birthday.2),
    }
}

fn day_in_range(n: Option<i32>, start: i32, days: u32) -> (r: bool)
    ensures
        r == in_range(n, start as int, days),
{
    match n {
        Some(n) => start <= n && (n as i64) <= (start as i64) + (days as i64),
        None => false,
    }
}

/// Whether a birthday (year, month, day) falls within `days` days from
/// `today` (see `birthday_upcoming`).
pub fn birthday_in_window(birthday: (i32, u32, u32), today: (i32, u32, u32), days: u32) -> (r: bool)
    ensures
        r == birthday_upcoming(birthday, today, days),
{
    match day_number(today.0, today.1, today.2) {
        Some(t) => {
            if day_in_range(birthday_day(birthday, today.0), t, days) {
                return true;
            }
            if today.0 < i32::MAX {
                day_in_range(birthday_day(birthday, today.0 + 1), t, days)
            } else {
                false
            }
        },
        None => false,
    }
}

/// The contacts whose birthday falls within `days` days from `today`, in
/// order.
pub open spec fn upcoming(
    contacts: Seq<(ContactSummary, Option<(i32, u32, u32)>)>,
    today: (i32, u32, u32),
    days: u32,
) -> Seq<ContactSummary>
    decreases contacts.len(),
{
    if contacts.len() == 0 {
        Seq::empty()
    } else {
        let rest = upcoming(contacts.drop_last(), today, days);
        match contacts.last().1 {
            Some(b) => if birthday_upcoming(b, today, days) {
                rest.push(contacts.last().0)
            } else {
                rest
            },
            None => rest,
        }
    }
}

/// The contacts with an upcoming birthday (see `upcoming`).
pub fn upcoming_birthdays(
    contacts: Vec<(ContactSummary, Option<(i32, u32, u32)>)>,
    today: (i32, u32, u32),
    days: u32,
) -> (r: Vec<ContactSummary>)
    ensures
        r@ == upcoming(contacts@, today, days),
{
    let mut out: Vec<ContactSummary> = Vec::new();
    let mut i: usize = 0;
    while i < contacts.len()
        invariant
            i <= contacts@.len(),
            out@ == upcoming(contacts@.take(i as int), today, days),
        decreases contacts@.len() - i,
    {
        proof {
            assert(contacts@.take(i + 1).drop_last() =~= contacts@.take(i as int));
        }
        match contacts[i].1 {
            Some(b) => {
                if birthday_in_window(b, today, days) {
                    out.push(contacts[i].0.copy_summary());
                }
            },
            None => {},
        }
        i = i + 1;
    }
    proof {
        assert(contacts@.take(i as int) =~= contacts@);
    }
    out
}

impl ContactSummary {
    fn copy_summary(&self) -> (c: ContactSummary)
        ensures
            c == *self,
    {
        ContactSummary {
            id: self.id.clone(),
            display_name: self.display_name.clone(),
            email: copy_opt(&self.email),
            phone: copy_opt(&self.phone),
            organization: copy_opt(&self.organization),
        }
    }
}

fn copy_opt(o: &Option<String>) -> (r: Option<String>)
    ensures
        r == *o,
{
    match o {
        Some(s) => Some(s.clone()),
        None => None,
    }
}

// ------------------------------------------------------------------
// Contacts of the address book
// ------------------------------------------------------------------

/// An e-mail address of a contact.
#[derive(Debug, Clone, PartialEq, Eq)]
pub struct ContactEmail {
    /// Kind of address (`work`, `home`), if given.
    pub type_label: Option<String>,
    /// The address.
    pub value: String,
}

/// A phone number of a contact.
#[derive(Debug, Clone, PartialEq, Eq)]
pub struct ContactPhone {
    /// Kind of number (`cell`, `work`), if given.
    pub type_label: Option<String>,
    /// The number.
    pub value: String,
}

/// A contact as the CardDAV server stores it.
#[derive(Debug, Clone, PartialEq, Eq)]
pub struct CardDavContact {
    /// The contact's UID.
    pub id: String,
    /// Formatted name.
    pub display_name: Option<String>,
    /// Given name.
    pub first_name: Option<String>,
    /// Family name.
    pub last_name: Option<String>,
    /// E-mail addresses, the primary one first.
    pub emails: Vec<ContactEmail>,
    /// Phone numbers, the primary one first.
    pub phones: Vec<ContactPhone>,
    /// Organization.
    pub organization: Option<String>,
    /// Job title.
    pub title: Option<String>,
    /// Postal addresses, each written on one line.
    pub addresses: Vec<String>,
    /// Birthday as year, month and day.
    pub birthday: Option<(i32, u32, u32)>,
    /// Notes.
    pub notes: Option<String>,
    /// Address of a photo.
    pub photo_url: Option<String>,
    /// Categories.
    pub categories: Vec<String>,
}

/// The name a contact goes by: its formatted name, else its given and family
/// names joined by a space, else nothing.
pub open spec fn full_name_of(c: CardDavContact) -> Seq<char> {
    match c.display_name {
        Some(d) => d@,
        None => match (c.first_name, c.last_name) {
            (Some(f), Some(l)) => f@ + " "@ + l@,
            (Some(f), None) => f@,
            (None, Some(l)) => l@,
            (None, None) => Seq::empty(),
        },
    }
}

/// The first e-mail address of a contact.
pub open spec fn primary_email_of(c: CardDavContact) -> Option<Seq<char>> {
    if c.emails@.len() > 0 {
        Some(c.emails@[0].value@)
    } else {
        None
    }
}

/// The first phone number of a contact.
pub open spec fn primary_phone_of(c: CardDavContact) -> Option<Seq<char>> {
    if c.phones@.len() > 0 {
        Some(c.phones@[0].value@)
    } else {
        None
    }
}

impl CardDavContact {
    /// A contact with a UID and a formatted name and nothing else.
    pub fn new(id: &str, display_name: &str) -> (c: Self)
        ensures
            c.id@ == id@,
            opt_string(c.display_name) == Some(display_name@),
            c.first_name is None,
            c.last_name is None,
            c.emails@.len() == 0,
            c.phones@.len() == 0,
            c.organization is None,
            c.title is None,
            c.addresses@.len() == 0,
            c.birthday is None,
            c.notes is None,
            c.photo_url is None,
            c.categories@.len() == 0,
    {
        CardDavContact {
            id: text::owned(id),
            display_name: Some(text::owned(display_name)),
            first_name: None,
            last_name: None,
            emails: Vec::new(),
            phones: Vec::new(),
            organization: None,
            title: None,
            addresses: Vec::new(),
            birthday: None,
            notes: None,
            photo_url: None,
            categories: Vec::new(),
        }
    }

    /// The contact with one more e-mail address, added last.
    pub fn with_email(self, email: &str, type_label: Option<String>) -> (c: Self)
        ensures
            c == (CardDavContact { emails: c.emails, ..self }),
            c.emails@.len() == self.emails@.len() + 1,
            c.emails@.take(self.emails@.len() as int) == self.emails@,
            c.emails@.last().value@ == email@,
            c.emails@.last().type_label == type_label,
    {
        let mut c = self;
        c.emails.push(ContactEmail { type_label, value: text::owned(email) });
        proof {
            assert(c.emails@.take(self.emails@.len() as int) =~= self.emails@);
        }
        c
    }

    /// The contact with one more phone number, added last.
    pub fn with_phone(self, phone: &str, type_label: Option<String>) -> (c: Self)
        ensures
            c == (CardDavContact { phones: c.phones, ..self }),
            c.phones@.len() == self.phones@.len() + 1,
            c.phones@.take(self.phones@.len() as int) == self.phones@,
            c.phones@.last().value@ == phone@,
            c.phones@.last().type_label == type_label,
    {
        let mut c = self;
        c.phones.push(ContactPhone { type_label, value: text::owned(phone) });
        proof {
            assert(c.phones@.take(self.phones@.len() as int) =~= self.phones@);
        }
        c
    }

    /// The name the contact goes by (see `full_name_of`).
    pub fn full_name(&self) -> (r: String)
        ensures
            r@ == full_name_of(*self),
    {
        match &self.display_name {
            Some(d) => d.clone(),
            None => match (&self.first_name, &self.last_name) {
                (Some(f), Some(l)) => f.clone().concat(" ").concat(l.as_str()),
                (Some(f), None) => f.clone(),
                (None, Some(l)) => l.clone(),
                (None, None) => String::new(),
            },
        }
    }

    /// The first e-mail address, if any.
    pub fn primary_email(&self) -> (r: Option<&str>)
        ensures
            opt_str(r) == primary_email_of(*self),
    {
        if self.emails.len() > 0 {
            Some(self.emails[0].value.as_str())
        } else {
            None
        }
    }

    /// The first phone number, if any.
    pub fn primary_phone(&self) -> (r: Option<&str>)
        ensures
            opt_str(r) == primary_phone_of(*self),
    {
        if self.phones.len() > 0 {
            Some(self.phones[0].value.as_str())
        } else {
            None
        }
    }
}

/// The list entry for a contact: its UID, the name it goes by (`Unnamed`
/// when it has none), its first e-mail address and phone number, and its
/// organization.
pub fn to_summary(contact: &CardDavContact) -> (s: ContactSummary)
    ensures
        s.id@ == contact.id@,
        s.display_name@ == shown_name(full_name_of(*contact)),
        opt_string(s.email) == primary_email_of(*contact),
        opt_string(s.phone) == primary_phone_of(*contact),
        opt_string(s.organization) == opt_string(contact.organization),
{
    let name = contact.full_name();
    let org = match &contact.organization {
        Some(o) => Some(o.as_str()),
        None => None,
    };
    contact_summary(
        contact.id.as_str(),
        name.as_str(),
        contact.primary_email(),
        contact.primary_phone(),
        org,
    )
}

/// Whether `s` is the list entry of the contact `c` (see `to_summary`).
pub open spec fn summarizes(s: ContactSummary, c: CardDavContact) -> bool {
    &&& s.id@ == c.id@
    &&& s.display_name@ == shown_name(full_name_of(c))
    &&& opt_string(s.email) == primary_email_of(c)
    &&& opt_string(s.phone) == primary_phone_of(c)
    &&& opt_string(s.organization) == opt_string(c.organization)
}

/// The list entries for contacts, in their order.
pub fn summaries(contacts: &Vec<CardDavContact>) -> (r: Vec<ContactSummary>)
    ensures
        r@.len() == contacts@.len(),
        forall|k: int| 0 <= k < contacts@.len() ==> summarizes(#[trigger] r@[k], contacts@[k]),
{
    let mut out: Vec<ContactSummary> = Vec::new();
    let mut i: usize = 0;
    while i < contacts.len()
        invariant
            i <= contacts@.len(),
            out@.len() == i,
            forall|k: int| 0 <= k < i ==> summarizes(#[trigger] out@[k], contacts@[k]),
        decreases contacts@.len() - i,
    {
        let s = to_summary(&contacts[i]);
        out.push(s);
        i = i + 1;
    }
    out
}

/// Everything known of a contact, for its detail view.
#[derive(Debug, Clone, PartialEq, Eq)]
pub struct ContactDetail {
    /// The contact's UID.
    pub id: String,
    /// The name it goes by.
    pub display_name: String,
    /// Given name.
    pub first_name: Option<String>,
    /// Family name.
    pub last_name: Option<String>,
    /// E-mail addresses.
    pub emails: Vec<String>,
    /// Phone numbers.
    pub phones: Vec<String>,
    /// Organization.
    pub organization: Option<String>,
    /// Job title.
    pub title: Option<String>,
    /// Postal addresses, one line each.
    pub addresses: Vec<String>,
    /// Birthday as year, month and day.
    pub birthday: Option<(i32, u32, u32)>,
    /// Notes.
    pub notes: Option<String>,
    /// Address of a photo.
    pub photo_url: Option<String>,
    /// Categories.
    pub categories: Vec<String>,
}

/// The values of e-mail entries.
pub open spec fn email_values(es: Seq<ContactEmail>) -> Seq<Seq<char>> {
    es.map_values(|e: ContactEmail| e.value@)
}

/// The values of phone entries.
pub open spec fn phone_values(ps: Seq<ContactPhone>) -> Seq<Seq<char>> {
    ps.map_values(|p: ContactPhone| p.value@)
}

/// The views of strings.
pub open spec fn texts(v: Seq<String>) -> Seq<Seq<char>> {
    v.map_values(|s: String| s@)
}

fn email_list(es: &Vec<ContactEmail>) -> (r: Vec<String>)
    ensures
        texts(r@) == email_values(es@),
{
    let mut out: Vec<String> = Vec::new();
    let mut i: usize = 0;
    while i < es.len()
        invariant
            i <= es@.len(),
            out@.len() == i,
            texts(out@) == email_values(es@.take(i as int)),
        decreases es@.len() - i,
    {
        let ghost before = out@;
        out.push(es[i].value.clone());
        proof {
            assert(out@ =~= before.push(out@[i as int]));
            assert(texts(out@) =~= texts(before).push(es@[i as int].value@));
            assert(es@.take(i + 1) =~= es@.take(i as int).push(es@[i as int]));
            assert(email_values(es@.take(i + 1)) =~= email_values(es@.take(i as int)).push(
                es@[i as int].value@,
            ));
        }
        i = i + 1;
    }
    proof {
        assert(es@.take(i as int) =~= es@);
    }
    out
}

fn phone_list(ps: &Vec<ContactPhone>) -> (r: Vec<String>)
    ensures
        texts(r@) == phone_values(ps@),
{
    let mut out: Vec<String> = Vec::new();
    let mut i: usize = 0;
    while i < ps.len()
        invariant
            i <= ps@.len(),
            out@.len() == i,
            texts(out@) == phone_values(ps@.take(i as int)),
        decreases ps@.len() - i,
    {
        let ghost before = out@;
        out.push(ps[i].value.clone());
        proof {
            assert(out@ =~= before.push(out@[i as int]));
            assert(texts(out@) =~= texts(before).push(ps@[i as int].value@));
            assert(ps@.take(i + 1) =~= ps@.take(i as int).push(ps@[i as int]));
            assert(phone_values(ps@.take(i + 1)) =~= phone_values(ps@.take(i as int)).push(
                ps@[i as int].value@,
            ));
        }
        i = i + 1;
    }
    proof {
        assert(ps@.take(i as int) =~= ps@);
    }
    out
}

fn copy_strings(v: &Vec<String>) -> (r: Vec<String>)
    ensures
        r@ == v@,
{
    let mut out: Vec<String> = Vec::new();
    let mut i: usize = 0;
    while i < v.len()
        invariant
            i <= v@.len(),
            out@ == v@.take(i as int),
        decreases v@.len() - i,
    {
        out.push(v[i].clone());
        proof {
            assert(out@ =~= v@.take(i + 1));
        }
        i = i + 1;
    }
    proof {
        assert(v@.take(i as int) =~= v@);
    }
    out
}

/// The detail view of a contact: the name it goes by (`Unnamed` when it has
/// none), and all its other fields, with e-mail addresses and phone numbers
/// by their values.
pub fn to_detail(contact: &CardDavContact) -> (d: ContactDetail)
    ensures
        d.id@ == contact.id@,
        d.display_name@ == shown_name(full_name_of(*contact)),
        d.first_name == contact.first_name,
        d.last_name == contact.last_name,
        texts(d.emails@) == email_values(contact.emails@),
        texts(d.phones@) == phone_values(contact.phones@),
        d.organization == contact.organization,
        d.title == contact.title,
        d.addresses@ == contact.addresses@,
        d.birthday == contact.birthday,
        d.notes == contact.notes,
        d.photo_url == contact.photo_url,
        d.categories@ == contact.categories@,
{
    let name = contact.full_name();
    ContactDetail {
        id: contact.id.clone(),
        display_name: display_name_for(name.as_str()),
        first_name: copy_opt(&contact.first_name),
        last_name: copy_opt(&contact.last_name),
        emails: email_list(&contact.emails),
        phones: phone_list(&contact.phones),
        organization: copy_opt(&contact.organization),
        title: copy_opt(&contact.title),
        addresses: copy_strings(&contact.addresses),
        birthday: contact.birthday,
        notes: copy_opt(&contact.notes),
        photo_url: copy_opt(&contact.photo_url),
        categories: copy_strings(&contact.categories),
    }
}

/// What a user gives for a new contact.
#[derive(Debug, Clone, PartialEq, Eq)]
pub struct NewContact {
    /// Full name.
    pub name: String,
    /// Given name, if given apart.
    pub first_name: Option<String>,
    /// Family name, if given apart.
    pub last_name: Option<String>,
    /// E-mail address.
    pub email: Option<String>,
    /// Phone number.
    pub phone: Option<String>,
    /// Organization.
    pub organization: Option<String>,
    /// Birthday as year, month and day.
    pub birthday: Option<(i32, u32, u32)>,
    /// Notes.
    pub notes: Option<String>,
}

/// Whether `c` is the stored contact for the new contact `n`, whatever its
/// UID: the full name as formatted name; the given and family names as given,
/// else split from the full name at its first space; the e-mail address and
/// phone number as the only ones, without a kind; and the organization,
/// birthday and notes.
pub open spec fn built_from_new(n: NewContact, c: CardDavContact) -> bool {
    &&& c.display_name == Some(n.name)
    &&& (opt_string(c.first_name), opt_string(c.last_name)) == new_contact_names(
        n.name@,
        opt_string(n.first_name),
        opt_string(n.last_name),
    )
    &&& c.emails@ == match n.email {
        Some(e) => seq![ContactEmail { type_label: None, value: e }],
        None => Seq::empty(),
    }
    &&& c.phones@ == match n.phone {
        Some(p) => seq![ContactPhone { type_label: None, value: p }],
        None => Seq::empty(),
    }
    &&& c.organization == n.organization
    &&& c.title is None
    &&& c.addresses@.len() == 0
    &&& c.birthday == n.birthday
    &&& c.notes == n.notes
    &&& c.photo_url is None
    &&& c.categories@.len() == 0
}

fn opt_as_str(o: &Option<String>) -> (r: Option<&str>)
    ensures
        opt_str(r) == opt_string(*o),
{
    match o {
        Some(s) => Some(s.as_str()),
        None => None,
    }
}

/// The stored contact for a new contact, under the UID `uid` (see
/// `built_from_new`).
pub fn contact_from_new(new: &NewContact, uid: String) -> (c: CardDavContact)
    ensures
        c.id == uid,
        built_from_new(*new, c),
{
    let (first_name, last_name) = names_for_new_contact(
        new.name.as_str(),
        opt_as_str(&new.first_name),
        opt_as_str(&new.last_name),
    );
    let mut emails: Vec<ContactEmail> = Vec::new();
    match &new.email {
        Some(e) => {
            emails.push(ContactEmail { type_label: None, value: e.clone() });
        },
        None => {},
    }
    let mut phones: Vec<ContactPhone> = Vec::new();
    match &new.phone {
        Some(p) => {
            phones.push(ContactPhone { type_label: None, value: p.clone() });
        },
        None => {},
    }
    let c = CardDavContact {
        id: uid,
        display_name: Some(new.name.clone()),
        first_name,
        last_name,
        emails,
        phones,
        organization: copy_opt(&new.organization),
        title: None,
        addresses: Vec::new(),
        birthday: new.birthday,
        notes: copy_opt(&new.notes),
        photo_url: None,
        categories: Vec::new(),
    };
    proof {
        assert(c.emails@ =~= match new.email {
            Some(e) => seq![ContactEmail { type_label: None, value: e }],
            None => Seq::empty(),
        });
        assert(c.phones@ =~= match new.phone {
            Some(p) => seq![ContactPhone { type_label: None, value: p }],
            None => Seq::empty(),
        });
    }
    c
}

/// The stored contact for a new contact, under a fresh random UID of 36
/// characters (see `built_from_new`).
pub fn from_new_contact(new: &NewContact) -> (c: CardDavContact)
    ensures
        c.id@.len() == 36,
        built_from_new(*new, c),
{
    let uid = ids::fresh_uuid();
    contact_from_new(new, uid)
}

/// Changes to a stored contact; fields left `None` stay as they are.
#[derive(Debug, Clone, PartialEq, Eq)]
pub struct ContactUpdate {
    /// New full name.
    pub name: Option<String>,
    /// New e-mail address, replacing all others.
    pub email: Option<String>,
    /// New phone number, replacing all others.
    pub phone: Option<String>,
    /// New organization.
    pub organization: Option<String>,
    /// New notes.
    pub notes: Option<String>,
}

/// Whether `c` is the contact `old` after the update `u`: a new name becomes
/// the formatted name and, when it has a space, is split into given and
/// family names at the first one; a new e-mail address or phone number
/// becomes the only one, without a kind; a new organization or notes replace
/// the old; everything else stays.
pub open spec fn contact_updated(old: CardDavContact, u: ContactUpdate, c: CardDavContact) -> bool {
    &&& c.id == old.id
    &&& c.display_name == match u.name {
        Some(n) => Some(n),
        None => old.display_name,
    }
    &&& (opt_string(c.first_name), opt_string(c.last_name)) == match u.name {
        Some(n) => match name_parts(n@) {
            Some(p) => (Some(p.0), Some(p.1)),
            None => (opt_string(old.first_name), opt_string(old.last_name)),
        },
        None => (opt_string(old.first_name), opt_string(old.last_name)),
    }
    &&& c.emails@ == match u.email {
        Some(e) => seq![ContactEmail { type_label: None, value: e }],
        None => old.emails@,
    }
    &&& c.phones@ == match u.phone {
        Some(p) => seq![ContactPhone { type_label: None, value: p }],
        None => old.phones@,
    }
    &&& c.organization == match u.organization {
        Some(o) => Some(o),
        None => old.organization,
    }
    &&& c.notes == match u.notes {
        Some(n) => Some(n),
        None => old.notes,
    }
    &&& c.title == old.title
    &&& c.addresses == old.addresses
    &&& c.birthday == old.birthday
    &&& c.photo_url == old.photo_url
    &&& c.categories == old.categories
}

/// Applies an update to a stored contact (see `contact_updated`).
pub fn apply_contact_update(existing: CardDavContact, update: &ContactUpdate) -> (c: CardDavContact)
    ensures
        contact_updated(existing, *update, c),
{
    let mut c = existing;
    match &update.name {
        Some(name) => {
            c.display_name = Some(name.clone());
            match split_name(name.as_str()) {
                Some((first, last)) => {
                    c.first_name = Some(first);
                    c.last_name = Some(last);
                },
                None => {},
            }
        },
        None => {},
    }
    match &update.email {
        Some(e) => {
            let mut v: Vec<ContactEmail> = Vec::new();
            v.push(ContactEmail { type_label: None, value: e.clone() });
            c.emails = v;
            proof {
                assert(c.emails@ =~= seq![ContactEmail { type_label: None, value: *e }]);
            }
        },
        None => {},
    }
    match &update.phone {
        Some(p) => {
            let mut v: Vec<ContactPhone> = Vec::new();
            v.push(ContactPhone { type_label: None, value: p.clone() });
            c.phones = v;
            proof {
                assert(c.phones@ =~= seq![ContactPhone { type_label: None, value: *p }]);
            }
        },
        None => {},
    }
    match &update.organization {
        Some(o) => {
            c.organization = Some(o.clone());
        },
        None => {},
    }
    match &update.notes {
        Some(n) => {
            c.notes = Some(n.clone());
        },
        None => {},
    }
    c
}

/// The contacts whose birthday comes within `days` days of `today` (see
/// `birthday_upcoming`), in their order.
pub open spec fn with_upcoming_birthday(
    cs: Seq<CardDavContact>,
    today: (i32, u32, u32),
    days: u32,
) -> Seq<CardDavContact>
    decreases cs.len(),
{
    if cs.len() == 0 {
        cs
    } else {
        let rest = with_upcoming_birthday(cs.drop_last(), today, days);
        match cs.last().birthday {
            Some(b) => if birthday_upcoming(b, today, days) {
                rest.push(cs.last())
            } else {
                rest
            },
            None => rest,
        }
    }
}

/// The list entries of the contacts whose birthday comes within `days` days
/// of `today`, in their order.
pub fn upcoming_birthday_contacts(
    contacts: &Vec<CardDavContact>,
    today: (i32, u32, u32),
    days: u32,
) -> (r: Vec<ContactSummary>)
    ensures
        r@.len() == with_upcoming_birthday(contacts@, today, days).len(),
        forall|k: int|
            0 <= k < r@.len() ==> summarizes(
                #[trigger] r@[k],
                with_upcoming_birthday(contacts@, today, days)[k],
            ),
{
    let mut out: Vec<ContactSummary> = Vec::new();
    let mut i: usize = 0;
    while i < contacts.len()
        invariant
            i <= contacts@.len(),
            out@.len() == with_upcoming_birthday(contacts@.take(i as int), today, days).len(),
            forall|k: int|
                0 <= k < out@.len() ==> summarizes(
                    #[trigger] out@[k],
                    with_upcoming_birthday(contacts@.take(i as int), today, days)[k],
                ),
        decreases contacts@.len() - i,
    {
        proof {
            assert(contacts@.take(i + 1).drop_last() =~= contacts@.take(i as int));
        }
        match contacts[i].birthday {
            Some(b) => {
                if birthday_in_window(b, today, days) {
                    let s = to_summary(&contacts[i]);
                    out.push(s);
                }
            },
            None => {},
        }
        i = i + 1;
    }
    proof {
        assert(contacts@.take(i as int) =~= contacts@);
    }
    out
}

/// An address book on the server.
#[derive(Debug, Clone, PartialEq, Eq)]
pub struct AddressbookInfo {
    /// Path of the address book on the server.
    pub id: String,
    /// Its name: the last part of the path.
    pub name: String,
    /// Whether it is the one used by default: the first one listed.
    pub is_default: bool,
}

/// The text without its trailing slashes.
pub open spec fn without_trailing_slashes(s: Seq<char>) -> Seq<char>
    decreases s.len(),
{
    if s.len() > 0 && s.last() == '/' {
        without_trailing_slashes(s.drop_last())
    } else {
        s
    }
}

/// The characters after the last slash.
pub open spec fn after_last_slash(s: Seq<char>) -> Seq<char>
    decreases s.len(),
{
    if s.len() == 0 || s.last() == '/' {
        Seq::empty()
    } else {
        after_last_slash(s.drop_last()).push(s.last())
    }
}

/// The name of an address book: the last non-empty part of its path between
/// slashes, or `default` when the path has none.
pub open spec fn addressbook_name(path: Seq<char>) -> Seq<char> {
    let part = after_last_slash(without_trailing_slashes(path));
    if part.len() == 0 {
        "default"@
    } else {
        part
    }
}

/// The name of an address book (see `addressbook_name`).
pub fn addressbook_name_of(path: &str) -> (r: String)
    ensures
        r@ == addressbook_name(path@),
{
    let chars = text::chars_of(path);
    let mut e: usize = chars.len();
    proof {
        assert(chars@.take(e as int) =~= chars@);
    }
    while e > 0 && chars[e - 1] == '/'
        invariant
            e <= chars@.len(),
            without_trailing_slashes(chars@.take(e as int)) == without_trailing_slashes(chars@),
        decreases e,
    {
        proof {
            assert(chars@.take(e - 1) =~= chars@.take(e as int).drop_last());
        }
        e = e - 1;
    }
    proof {
        assert(chars@.take(chars@.len() as int) =~= chars@);
    }
    let ghost t = chars@.take(e as int);
    let mut b: usize = e;
    proof {
        assert(t.take(b as int) =~= t);
        assert(t.subrange(b as int, e as int) =~= Seq::<char>::empty());
        assert(after_last_slash(t) =~= after_last_slash(t.take(b as int)) + t.subrange(b as int, e as int));
    }
    while b > 0 && chars[b - 1] != '/'
        invariant
            b <= e <= chars@.len(),
            t == chars@.take(e as int),
            after_last_slash(t) == after_last_slash(t.take(b as int)) + t.subrange(b as int, e as int),
        decreases b,
    {
        proof {
            assert(t.take(b - 1) =~= t.take(b as int).drop_last());
            assert(t.subrange(b - 1, e as int) =~= seq![t[b - 1]] + t.subrange(b as int, e as int));
            assert(after_last_slash(t.take(b - 1)).push(t[b - 1]) + t.subrange(b as int, e as int)
                =~= after_last_slash(t.take(b - 1)) + t.subrange(b - 1, e as int));
        }
        b = b - 1;
    }
    proof {
        assert(t.take(e as int) =~= t);
        assert(after_last_slash(t.take(b as int)) =~= Seq::<char>::empty());
        assert(after_last_slash(t) =~= t.subrange(b as int, e as int));
        assert(t.subrange(b as int, e as int) =~= chars@.subrange(b as int, e as int));
    }
    if b == e {
        text::owned("default")
    } else {
        let mut part: Vec<char> = Vec::new();
        let mut i: usize = b;
        while i < e
            invariant
                b <= i <= e <= chars@.len(),
                part@ == chars@.subrange(b as int, i as int),
            decreases e - i,
        {
            part.push(chars[i]);
            proof {
                assert(chars@.subrange(b as int, i + 1) =~= chars@.subrange(b as int, i as int).push(
                    chars@[i as int],
                ));
            }
            i = i + 1;
        }
        text::string_from_chars(part.as_slice())
    }
}

/// The address books for the paths the server lists, in their order: each
/// named by `addressbook_name_of`, the first one the default.
pub fn addressbook_infos(paths: Vec<String>) -> (r: Vec<AddressbookInfo>)
    ensures
        r@.len() == paths@.len(),
        forall|k: int|
            0 <= k < paths@.len() ==> {
                let a = #[trigger] r@[k];
                &&& a.id == paths@[k]
                &&& a.name@ == addressbook_name(paths@[k]@)
                &&& a.is_default == (k == 0)
            },
{
    let mut out: Vec<AddressbookInfo> = Vec::new();
    let mut i: usize = 0;
    while i < paths.len()
        invariant
            i <= paths@.len(),
            out@.len() == i,
            forall|k: int|
                0 <= k < i ==> {
                    let a = #[trigger] out@[k];
                    &&& a.id == paths@[k]
                    &&& a.name@ == addressbook_name(paths@[k]@)
                    &&& a.is_default == (k == 0)
                },
        decreases paths@.len() - i,
    {
        let name = addressbook_name_of(paths[i].as_str());
        out.push(AddressbookInfo { id: paths[i].clone(), name, is_default: i == 0 });
        i = i + 1;
    }
    out
}

/// A contact made from a new contact is listed under the full name it was
/// given.
pub proof fn lemma_new_contact_listed_by_name(n: NewContact, c: CardDavContact, s: ContactSummary)
    requires
        built_from_new(n, c),
        summarizes(s, c),
    ensures
        s.display_name@ == shown_name(n.name@),
{
}

/// After an update that gives a new name, the contact is listed under that
/// name, and its other fields than those the update names stay.
pub proof fn lemma_renamed_contact_listed_by_new_name(
    old: CardDavContact,
    u: ContactUpdate,
    c: CardDavContact,
    s: ContactSummary,
)
    requires
        contact_updated(old, u, c),
        summarizes(s, c),
        u.name is Some,
    ensures
        s.display_name@ == shown_name(u.name->0@),
        s.id@ == old.id@,
        u.email is None ==> opt_string(s.email) == primary_email_of(old),
        u.phone is None ==> opt_string(s.phone) == primary_phone_of(old),
{
}

/// A birthday on today's month and day is upcoming, whatever the window and
/// the year of birth, when today is a date.
pub proof fn lemma_birthday_today_is_upcoming(year: i32, today: (i32, u32, u32), days: u32)
    requires
        civil_day(today.0, today.1, today.2) is Some,
    ensures
        birthday_upcoming((year, today.1, today.2), today, days),
{
}

/// A contact whose birthday falls on today's month and day is among the
/// contacts with an upcoming birthday.
pub proof fn lemma_birthday_today_is_listed(
    contacts: Seq<(ContactSummary, Option<(i32, u32, u32)>)>,
    k: int,
    year: i32,
    today: (i32, u32, u32),
    days: u32,
)
    requires
        0 <= k < contacts.len(),
        contacts[k].1 == Some((year, today.1, today.2)),
        civil_day(today.0, today.1, today.2) is Some,
    ensures
        upcoming(contacts, today, days).contains(contacts[k].0),
    decreases contacts.len(),
{
    let rest = upcoming(contacts.drop_last(), today, days);
    if k == contacts.len() - 1 {
        lemma_birthday_today_is_upcoming(year, today, days);
        assert(upcoming(contacts, today, days) == rest.push(contacts[k].0));
        assert(rest.push(contacts[k].0)[rest.len() as int] == contacts[k].0);
    } else {
        lemma_birthday_today_is_listed(contacts.drop_last(), k, year, today, days);
        assert(contacts.drop_last()[k] == contacts[k]);
        let j = choose|j: int| 0 <= j < rest.len() && rest[j] == contacts[k].0;
        match contacts.last().1 {
            Some(b) => if birthday_upcoming(b, today, days) {
                assert(rest.push(contacts.last().0)[j] == contacts[k].0);
            },
            None => {},
        }
    }
}

} // verus!
