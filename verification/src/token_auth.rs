//! Token authentication in front of a service: what to do with a request,
//! before and after its token was looked up.

use std::marker::PhantomData;
use std::rc::Rc;
use vstd::pervasive::cloned;
use vstd::prelude::*;

verus! {

/// What the middleware does with a request.
#[derive(Debug, PartialEq, Eq)]
pub enum TokenStep<'a, Type, E> {
    /// Look up the user of this token and come back with the answer.
    GetUserId(&'a str),
    /// Hand the request to the service, with the user attached if one is
    /// known.
    Forward(Option<Type>),
    /// Answer that the token is missing.
    TokenNotFound,
    /// Answer with the fault of the lookup.
    Reject(E),
}

/// Settings of the token authentication, from which the middleware of each
/// service is made.
pub struct TokenAuth<F, Type> {
    authorization_header_required: bool,
    finder: F,
    phantom_type: PhantomData<Type>,
}

impl<F: Default, Type> Default for TokenAuth<F, Type> {
    /// Settings that require no header, with the default lookup.
    fn default() -> (auth: Self)
        ensures
            !auth.header_required(),
    {
        Self { authorization_header_required: false, finder: F::default(), phantom_type: PhantomData }
    }
}

impl<F: Clone, Type> Clone for TokenAuth<F, Type> {
    fn clone(&self) -> (copy: Self)
        ensures
            copy.header_required() == self.header_required(),
            cloned(self.finder_spec(), copy.finder_spec()),
    {
        Self {
            authorization_header_required: self.authorization_header_required,
            finder: self.finder.clone(),
            phantom_type: PhantomData,
        }
    }
}

impl<F, Type> TokenAuth<F, Type> {
    /// Whether a request without a token is turned away.
    pub closed spec fn header_required(&self) -> bool {
        self.authorization_header_required
    }

    /// The lookup from token to user.
    pub closed spec fn finder_spec(&self) -> F {
        self.finder
    }

    /// Construct `TokenAuth` middleware.
    pub fn new(finder: F, authorization_header_required: bool) -> (auth: Self)
        ensures
            auth.finder_spec() == finder,
            auth.header_required() == authorization_header_required,
    {
        Self { authorization_header_required, finder, phantom_type: PhantomData }
    }

    /// The lookup from token to user.
    pub fn finder(&self) -> (finder: &F)
        ensures
            *finder == self.finder_spec(),
    {
        &self.finder
    }

    /// Whether a request without a token is turned away.
    pub fn is_header_required(&self) -> (required: bool)
        ensures
            required == self.header_required(),
    {
        self.authorization_header_required
    }

    /// The middleware in front of `service`, with these settings.
    pub fn new_transform<S>(&self, service: S) -> (middleware: TokenAuthMiddleware<S, F, Type>)
        where F: Clone
        ensures
            middleware.header_required() == self.header_required(),
            cloned(self.finder_spec(), middleware.finder_spec()),
            middleware.service_spec() == service,
    {
        TokenAuthMiddleware {
            service: Rc::new(service),
            token_finder: self.finder.clone(),
            authorization_header_required: self.authorization_header_required,
            phantom_type: PhantomData,
        }
    }
}

/// Token authentication in front of one service.
pub struct TokenAuthMiddleware<S, F, Type> {
    service: Rc<S>,
    token_finder: F,
    authorization_header_required: bool,
    phantom_type: PhantomData<Type>,
}

/// What to do with a request that carries `token` in its authorization
/// header, or no readable header at all: a token is looked up, and without
/// one the request is turned away if the header is required and handed on
/// unsigned if it is not.
pub open spec fn request_step<'a, Type, E>(header_required: bool, token: Option<&'a str>) -> TokenStep<
    'a,
    Type,
    E,
> {
    match token {
        Some(token) => TokenStep::GetUserId(token),
        None => if header_required {
            TokenStep::TokenNotFound
        } else {
            TokenStep::Forward(None)
        },
    }
}

/// What to do once the token was looked up: a known user is attached and
/// the request handed on, a fault is the answer.
pub open spec fn user_step<'a, Type, E>(found: Result<Type, E>) -> TokenStep<'a, Type, E> {
    match found {
        Ok(data) => TokenStep::Forward(Some(data)),
        Err(error) => TokenStep::Reject(error),
    }
}

impl<S, F, Type> TokenAuthMiddleware<S, F, Type> {
    /// Whether a request without a token is turned away.
    pub closed spec fn header_required(&self) -> bool {
        self.authorization_header_required
    }

    /// The lookup from token to user.
    pub closed spec fn finder_spec(&self) -> F {
        self.token_finder
    }

    /// The service behind the middleware.
    pub closed spec fn service_spec(&self) -> S {
        *self.service
    }

    /// The lookup from token to user.
    pub fn token_finder(&self) -> (finder: &F)
        ensures
            *finder == self.finder_spec(),
    {
        &self.token_finder
    }

    /// The service behind the middleware.
    pub fn service(&self) -> (service: Rc<S>)
        ensures
            *service == self.service_spec(),
    {
        Rc::clone(&self.service)
    }

    /// The step on a request: `token` is the authorization header, if the
    /// request has one that can be read as text.
    pub fn on_request<'a, E>(&self, token: Option<&'a str>) -> (step: TokenStep<'a, Type, E>)
        ensures
            step == request_step::<Type, E>(self.header_required(), token),
    {
        match token {
            Some(token) => TokenStep::GetUserId(token),
            None => {
                if self.authorization_header_required {
                    TokenStep::TokenNotFound
                } else {
                    TokenStep::Forward(None)
                }
            },
        }
    }

    /// The step on the answer of the lookup.
    pub fn on_user_id<'a, E>(&self, found: Result<Type, E>) -> (step: TokenStep<'a, Type, E>)
        ensures
            step == user_step::<Type, E>(found),
    {
        match found {
            Ok(data) => TokenStep::Forward(Some(data)),
            Err(error) => TokenStep::Reject(error),
        }
    }
}

/// A request is handed to the service without a user only where the header
/// is not required, and it is never handed on after a failed lookup.
pub proof fn lemma_required_header_is_enforced<'a, Type, E>(
    header_required: bool,
    token: Option<&'a str>,
    found: Result<Type, E>,
)
    ensures
        request_step::<Type, E>(header_required, token) == TokenStep::<Type, E>::Forward(None)
            <==> token is None && !header_required,
        user_step::<Type, E>(found) is Forward <==> found is Ok,
{
}

} // verus!
