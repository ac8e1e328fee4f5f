//! The account panel's state: the credential form, the token form, and the
//! acceptance step that turns a delivered login result into an account.

use vstd::prelude::*;
use crate::client::Error;
use crate::repr::login::Tokens;
use crate::utils::{Arx, ArxSender, Poll};
use crate::widgets::error::ErrorHeader;

verus! {

/// The mathematical content of an `Account`.
pub ghost struct AccountView {
    pub access: Seq<char>,
    pub name: Option<Seq<char>>,
    pub refresh: Option<Seq<char>>,
}

/// The signed-in capability: a bearer access token, and, when the sign-in
/// went through the credential form, the user's name and a refresh token.
pub struct Account {
    pub access: String,
    pub name: Option<String>,
    pub refresh: Option<String>,
}

impl View for Account {
    type V = AccountView;

    open spec fn view(&self) -> AccountView {
        AccountView {
            access: self.access@,
            name: match self.name {
                Some(n) => Some(n@),
                None => None,
            },
            refresh: match self.refresh {
                Some(r) => Some(r@),
                None => None,
            },
        }
    }
}

impl Clone for Account {
    /// A clone carries the same content.
    fn clone(&self) -> (r: Self)
        ensures
            r@ == self@,
    {
        Account {
            access: self.access.clone(),
            name: match &self.name {
                Some(n) => Some(n.clone()),
                None => None,
            },
            refresh: match &self.refresh {
                Some(r) => Some(r.clone()),
                None => None,
            },
        }
    }
}

/// The credential form: the typed name and password, the slot through which a
/// background login delivers its outcome, and the errors shown above the form.
pub struct Login {
    pub login: String,
    pub password: String,
    pub arx: Arx<(Result<Tokens, Error>, String)>,
    pub errors: ErrorHeader,
}

impl Login {
    /// A fresh form: empty fields, no login in flight, no errors.
    pub fn new() -> (r: Self)
        ensures
            r.login@ =~= Seq::<char>::empty(),
            r.password@ =~= Seq::<char>::empty(),
            !r.arx.is_pending(),
            r.errors.errors@ =~= Seq::<Error>::empty(),
    {
        Login {
            login: String::new(),
            password: String::new(),
            arx: Arx::new(),
            errors: ErrorHeader::default(),
        }
    }

    /// Start a login attempt: dispatch through the slot and hand out the
    /// write capability the background task delivers its outcome with.
    pub fn begin_login(&mut self) -> (s: ArxSender<(Result<Tokens, Error>, String)>)
        ensures
            final(self).arx.is_pending(),
            final(self).login == old(self).login,
            final(self).password == old(self).password,
            final(self).errors == old(self).errors,
    {
        self.arx.task()
    }

    /// Turn one delivered login outcome into an account: successful tokens
    /// become an account named after the attempted login, and a failure is
    /// pushed onto the error list instead.
    pub fn accept_login(&mut self, tokens: Result<Tokens, Error>, name: String) -> (r: Option<
        Account,
    >)
        ensures
            tokens matches Ok(t) ==> ((r matches Some(a) && a.access@ == t.access@ && (a.name
                matches Some(n) && n@ == name@) && (a.refresh matches Some(rf) && rf@
                == t.refresh@)) && *final(self) == *old(self)),
            tokens matches Err(e) ==> (r is None
                && final(self).errors.errors@ == old(self).errors.errors@.push(e)
                && final(self).login == old(self).login
                && final(self).password == old(self).password
                && final(self).arx == old(self).arx),
    {
        match tokens {
            Ok(t) => Some(
                Account { access: t.access, name: Some(name), refresh: Some(t.refresh) },
            ),
            Err(e) => {
                self.errors.push(e);
                None
            },
        }
    }

    /// One poll of the login slot: nothing happens while the slot is idle or
    /// the attempt is still pending; a delivered outcome is accepted as
    /// `accept_login` does it. An account is only ever handed out by a
    /// delivery, which leaves the slot idle.
    pub fn poll_login(&mut self) -> (r: Option<Account>)
        ensures
            !old(self).arx.is_pending() ==> r is None && *final(self) == *old(self),
            r is Some ==> old(self).arx.is_pending() && !final(self).arx.is_pending(),
            final(self).login == old(self).login,
            final(self).password == old(self).password,
            final(self).errors.errors@ == old(self).errors.errors@ || (exists|e: Error|
                final(self).errors.errors@ == old(self).errors.errors@.push(e)),
    {
        match self.arx.poll() {
            Poll::Delivered((tokens, name)) => self.accept_login(tokens, name),
            Poll::StillPending => None,
            Poll::NotInFlight => None,
        }
    }
}

/// The token form: a bearer token pasted directly.
pub struct Token {
    pub token: String,
}

impl Default for Token {
    /// A fresh form holds empty text.
    fn default() -> (r: Self)
        ensures
            r.token@ =~= Seq::<char>::empty(),
    {
        Token { token: String::new() }
    }
}

impl Token {
    /// The account a token sign-in yields: the pasted token as the access
    /// capability, with no name and no refresh token.
    pub fn to_account(&self) -> (a: Account)
        ensures
            a.access@ == self.token@,
            a.name is None,
            a.refresh is None,
    {
        Account { access: self.token.clone(), name: None, refresh: None }
    }
}

/// Which sign-in form is shown.
pub enum Panel {
    Login(Login),
    Token(Token),
}

impl Default for Panel {
    /// The credential form is shown first.
    fn default() -> (r: Self)
        ensures
            r matches Panel::Login(l) && !l.arx.is_pending(),
    {
        Panel::Login(Login::new())
    }
}

} // verus!
