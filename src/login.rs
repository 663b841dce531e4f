//! A login form: the state behind it and the form it renders to.

use vstd::prelude::*;
use crate::element::Node;
use crate::forms::{Form, Input};

verus! {

/// Adds two numbers.
pub fn add(left: usize, right: usize) -> (r: usize)
    requires
        left + right <= usize::MAX,
    ensures
        r == left + right,
{
    left + right
}

/// The state of a login form.
#[derive(Debug, Clone, PartialEq)]
pub struct Login {
    email: String,
    password: String,
}

pub struct LoginView {
    pub email: Seq<char>,
    pub password: Seq<char>,
}

impl View for Login {
    type V = LoginView;

    closed spec fn view(&self) -> LoginView {
        LoginView { email: self.email@, password: self.password@ }
    }
}

/// Whether `i` is an input with only its type and value set.
pub open spec fn is_input_of(i: Input, ty: Seq<char>, value: Seq<char>) -> bool {
    &&& Input::is_blank(Input { type_: None, value: None, ..i })
    &&& i.type_ is Some && i.type_->Some_0@ == ty
    &&& i.value is Some && i.value->Some_0@ == value
}

/// Whether `n` is the node of an input with only its type and value set.
pub open spec fn is_input_node(n: Node, ty: Seq<char>, value: Seq<char>) -> bool {
    exists|i: Input| is_input_of(i, ty, value) && n is Element && n->Element_0@ == i.markup()
}

impl Login {
    /// A login state with the given email and password.
    pub fn new(email: String, password: String) -> (r: Login)
        ensures
            r@.email == email@,
            r@.password == password@,
    {
        Login { email, password }
    }

    /// Replaces the email, as typed into the form.
    pub fn update_email(&mut self, value: String)
        ensures
            final(self)@.email == value@,
            final(self)@.password == old(self)@.password,
    {
        self.email = value;
    }

    /// Replaces the password, as typed into the form.
    pub fn update_password(&mut self, value: String)
        ensures
            final(self)@.password == value@,
            final(self)@.email == old(self)@.email,
    {
        self.password = value;
    }

    /// The form: a text input holding the email, then a password input
    /// holding the password.
    pub fn to_form(&self) -> (r: Form)
        ensures
            Form::has_no_attributes(r),
            r.children@.len() == 2,
            is_input_node(r.children@[0], "text"@, self@.email),
            is_input_node(r.children@[1], "password"@, self@.password),
    {
        let email = Input::builder().type_("text").value(self.email.as_str()).build();
        let password = Input::builder().type_("password").value(self.password.as_str()).build();
        let first = Node::element(&email);
        let second = Node::element(&password);
        let r = Form::builder().push(first).push(second).build();
        assert(is_input_of(email, "text"@, self@.email));
        assert(is_input_of(password, "password"@, self@.password));
        r
    }
}

} // verus!
