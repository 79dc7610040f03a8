//! The rules that request bodies must keep, and the report of those that a
//! body breaks.

use vstd::prelude::*;
use vstd::string::*;
use crate::errors::Error;
use crate::models::auth::{LoginUser, RegisterUser};
use crate::models::tasks::{NewTask, UpdateTask};
use crate::text::same_text;
use crate::trusted::email::{is_email, valid_email};
use crate::trusted::json::{json_string, quote_json};

verus! {

/// A broken rule: the name of the field, and what to tell the client.
pub type Violation = (String, String);

/// Mathematical value of a list of broken rules.
pub open spec fn violations_view(list: Seq<Violation>) -> Seq<(Seq<char>, Seq<char>)> {
    list.map_values(|v: Violation| (v.0@, v.1@))
}

/// The one violation `(field, message)` if `broken`, none otherwise.
pub open spec fn violation_if(broken: bool, field: Seq<char>, message: Seq<char>) -> Seq<
    (Seq<char>, Seq<char>),
> {
    if broken {
        seq![(field, message)]
    } else {
        Seq::empty()
    }
}

/// Whether a text of `length` characters has at least `min` and at most
/// `max` of them.
pub open spec fn length_within(length: nat, min: nat, max: nat) -> bool {
    min <= length <= max
}

/// A request body with rules on its fields.
pub trait Validate {
    /// The rules that the body breaks, each as the name of the field and
    /// the message for the client.
    spec fn violations(&self) -> Seq<(Seq<char>, Seq<char>)>;

    /// Checks every rule, and reports those that the body breaks.
    fn validate(&self) -> (r: Vec<Violation>)
        ensures
            violations_view(r@) == self.violations(),
    ;
}

/// Tells whether the text has at least `min` and at most `max` characters.
pub fn has_length(text: &str, min: usize, max: usize) -> (r: bool)
    ensures
        r == length_within(text@.len(), min as nat, max as nat),
{
    let length = text.unicode_len();
    min <= length && length <= max
}

/// Adds the violation `(field, message)` to the list if `broken`.
fn note(list: &mut Vec<Violation>, broken: bool, field: &str, message: &str)
    ensures
        violations_view(final(list)@) == violations_view(old(list)@) + violation_if(
            broken,
            field@,
            message@,
        ),
{
    if broken {
        list.push((field.to_owned(), message.to_owned()));
        assert(violations_view(list@) =~= violations_view(old(list)@) + seq![
            (field@, message@),
        ]);
    } else {
        assert(violations_view(list@) =~= violations_view(old(list)@) + Seq::empty());
    }
}

impl RegisterUser {
    /// The rules that the body breaks, where `email_valid` says whether the
    /// email is an email address: the email must be one, the username 5 to
    /// 50 characters long, the password 8 to 48, and the confirmation the
    /// same as the password.
    pub open spec fn violations_given(&self, email_valid: bool) -> Seq<(Seq<char>, Seq<char>)> {
        violation_if(self.confirm_password@ != self.password@, "confirm_password"@, "Field error"@)
            + violation_if(!email_valid, "email"@, "Invalid email"@) + violation_if(
            !length_within(self.password@.len(), 8, 48),
            "password"@,
            "Password must be between 8 to 48 characters long"@,
        ) + violation_if(
            !length_within(self.username@.len(), 5, 50),
            "username"@,
            "Username must be between 5 to 50 characters long"@,
        )
    }

    /// Checks every rule, taking the judgement on the email as given.
    pub fn check(&self, email_valid: bool) -> (r: Vec<Violation>)
        ensures
            violations_view(r@) == self.violations_given(email_valid),
    {
        let mut list: Vec<Violation> = Vec::new();
        assert(violations_view(list@) =~= Seq::empty());
        note(
            &mut list,
            !same_text(self.confirm_password.as_str(), self.password.as_str()),
            "confirm_password",
            "Field error",
        );
        note(&mut list, !email_valid, "email", "Invalid email");
        note(
            &mut list,
            !has_length(self.password.as_str(), 8, 48),
            "password",
            "Password must be between 8 to 48 characters long",
        );
        note(
            &mut list,
            !has_length(self.username.as_str(), 5, 50),
            "username",
            "Username must be between 5 to 50 characters long",
        );
        list
    }
}

impl Validate for RegisterUser {
    open spec fn violations(&self) -> Seq<(Seq<char>, Seq<char>)> {
        self.violations_given(valid_email(self.email@))
    }

    fn validate(&self) -> (r: Vec<Violation>) {
        self.check(is_email(self.email.as_str()))
    }
}

impl LoginUser {
    /// The rules that the body breaks, where `email_valid` says whether the
    /// email is an email address: the email must be one, and the password
    /// not empty.
    pub open spec fn violations_given(&self, email_valid: bool) -> Seq<(Seq<char>, Seq<char>)> {
        violation_if(!email_valid, "email"@, "Invalid email"@) + violation_if(
            self.password@.len() < 1,
            "password"@,
            "Password is required"@,
        )
    }

    /// Checks every rule, taking the judgement on the email as given.
    pub fn check(&self, email_valid: bool) -> (r: Vec<Violation>)
        ensures
            violations_view(r@) == self.violations_given(email_valid),
    {
        let mut list: Vec<Violation> = Vec::new();
        assert(violations_view(list@) =~= Seq::empty());
        note(&mut list, !email_valid, "email", "Invalid email");
        note(&mut list, self.password.as_str().unicode_len() < 1, "password", "Password is required");
        list
    }
}

impl Validate for LoginUser {
    open spec fn violations(&self) -> Seq<(Seq<char>, Seq<char>)> {
        self.violations_given(valid_email(self.email@))
    }

    fn validate(&self) -> (r: Vec<Violation>) {
        self.check(is_email(self.email.as_str()))
    }
}

impl Validate for NewTask {
    /// The title must be 5 to 255 characters long.
    open spec fn violations(&self) -> Seq<(Seq<char>, Seq<char>)> {
        violation_if(
            !length_within(self.title@.len(), 5, 255),
            "title"@,
            "Title must be between 5 to 255 characters"@,
        )
    }

    fn validate(&self) -> (r: Vec<Violation>) {
        let mut list: Vec<Violation> = Vec::new();
        assert(violations_view(list@) =~= Seq::empty());
        note(
            &mut list,
            !has_length(self.title.as_str(), 5, 255),
            "title",
            "Title must be between 5 to 255 characters",
        );
        list
    }
}

impl Validate for UpdateTask {
    /// A title, if one is sent, must be 5 to 255 characters long.
    open spec fn violations(&self) -> Seq<(Seq<char>, Seq<char>)> {
        violation_if(
            self.title matches Some(title) && !length_within(title@.len(), 5, 255),
            "title"@,
            "Title must be between 5 to 255 characters"@,
        )
    }

    fn validate(&self) -> (r: Vec<Violation>) {
        let mut list: Vec<Violation> = Vec::new();
        assert(violations_view(list@) =~= Seq::empty());
        let broken = match &self.title {
            Some(title) => !has_length(title.as_str(), 5, 255),
            None => false,
        };
        note(&mut list, broken, "title", "Title must be between 5 to 255 characters");
        list
    }
}

/// The members of a JSON object from `from` on, where each member is given
/// as its name and its value, both written as JSON already: each name, a
/// colon and its value, with commas between the members.
pub open spec fn json_members(members: Seq<(Seq<char>, Seq<char>)>, from: int) -> Seq<char>
    decreases members.len() - from,
{
    if from < 0 || from >= members.len() {
        Seq::empty()
    } else {
        let member = members[from].0 + ":"@ + members[from].1;
        if from + 1 >= members.len() {
            member
        } else {
            member + ","@ + json_members(members, from + 1)
        }
    }
}

/// The text of the JSON object with the given members, each given as its
/// name and its value, both written as JSON already.
pub open spec fn json_object(members: Seq<(Seq<char>, Seq<char>)>) -> Seq<char> {
    "{"@ + json_members(members, 0) + "}"@
}

/// The violations with field names and messages written as JSON strings.
pub open spec fn json_quoted(list: Seq<(Seq<char>, Seq<char>)>) -> Seq<(Seq<char>, Seq<char>)> {
    list.map_values(|v: (Seq<char>, Seq<char>)| (json_string(v.0), json_string(v.1)))
}

/// The report of the violations as the text of a JSON object, from field
/// name to message.
pub open spec fn json_report(list: Seq<(Seq<char>, Seq<char>)>) -> Seq<char> {
    json_object(json_quoted(list))
}

/// Writes the text of the JSON object with the given members, each given as
/// its name and its value, both written as JSON already.
pub fn frame(members: &Vec<Violation>) -> (r: String)
    ensures
        r@ == json_object(violations_view(members@)),
{
    let ghost views = violations_view(members@);
    let mut tail = String::new();
    let mut i = members.len();
    while i > 0
        invariant
            i <= members.len(),
            views == violations_view(members@),
            tail@ == json_members(views, i as int),
        decreases i,
    {
        i -= 1;
        let mut member = members[i].0.clone();
        member.append(":");
        member.append(members[i].1.as_str());
        if i + 1 < members.len() {
            member.append(",");
            member.append(tail.as_str());
        }
        assert(views[i as int] == (members@[i as int].0@, members@[i as int].1@));
        tail = member;
    }
    let mut text = String::from_str("{");
    text.append(tail.as_str());
    text.append("}");
    text
}

/// Writes the report of the violations as the text of a JSON object.
pub fn report(list: &Vec<Violation>) -> (r: String)
    ensures
        r@ == json_report(violations_view(list@)),
{
    let mut quoted: Vec<Violation> = Vec::new();
    let mut i: usize = 0;
    while i < list.len()
        invariant
            i <= list.len(),
            quoted@.len() == i,
            forall|j: int|
                0 <= j < i ==> (#[trigger] quoted@[j]).0@ == json_string(list@[j].0@)
                    && quoted@[j].1@ == json_string(list@[j].1@),
        decreases list.len() - i,
    {
        quoted.push((quote_json(list[i].0.as_str()), quote_json(list[i].1.as_str())));
        i += 1;
    }
    assert(violations_view(quoted@) =~= json_quoted(violations_view(list@)));
    frame(&quoted)
}

/// A request body on its way to being checked.
pub struct Validator<T>(pub T) where T: Validate;

impl<T> Validator<T> where T: Validate {
    pub fn new(t: T) -> (r: Self)
        ensures
            r.0 == t,
    {
        Self(t)
    }

    /// Hands out the body if it keeps every rule. Otherwise fails with the
    /// report of the rules it breaks, which answers the request before
    /// anything is stored.
    pub fn validate(&self) -> (r: Result<&T, Error>)
        ensures
            match r {
                Ok(body) => self.0.violations().len() == 0 && *body == self.0,
                Err(e) => {
                    &&& self.0.violations().len() > 0
                    &&& e matches Error::Validation(text)
                    &&& text@ == json_report(self.0.violations())
                },
            },
    {
        let list = self.0.validate();
        if list.len() == 0 {
            Ok(&self.0)
        } else {
            Err(Error::Validation(report(&list)))
        }
    }
}

} // verus!
