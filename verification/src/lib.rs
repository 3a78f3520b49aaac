//! A typed client library for the Polar billing platform's REST API:
//! data models for its objects, enumerations for its vocabulary, and
//! the core of a small HTTP client — base-URL handling, request paths,
//! and the mapping from status codes to a small error taxonomy — with
//! the behaviour of each piece stated in its contract.

use vstd::prelude::*;

mod enums;
mod ids;
mod models;
mod time;
mod web;

pub use enums::AmountType;
pub use enums::BenefitType;
pub use enums::BillingAddressField;
pub use enums::CheckoutSessionStatus;
pub use enums::CheckoutSessionsSorting;
pub use enums::CustomFieldType;
pub use enums::CustomerCancellationReason;
pub use enums::DiscountDuration;
pub use enums::DiscountType;
pub use enums::MeterAggregationFunc;
pub use enums::MeterFilterConjunction;
pub use enums::MeterFilterOperator;
pub use enums::MetersSorting;
pub use enums::PaymentProcessor;
pub use enums::PriceType;
pub use enums::ProductsSorting;
pub use enums::ProrationBehavior;
pub use enums::RecurringInterval;
pub use enums::SubscriptionStatus;
pub use enums::SubscriptionsSorting;
pub use ids::Uuid;
pub use ids::hex_digit;
pub use ids::hex_pair;
pub use ids::hex_seq;
pub use ids::uuid_ascii;
pub use ids::uuid_text;
pub use models::AttachedCustomField;
pub use models::AttachedCustomFieldParams;
pub use models::Benefit;
pub use models::BillingAddressFields;
pub use models::CheckoutProduct;
pub use models::CheckoutSession;
pub use models::CheckoutSessionParams;
pub use models::CustomField;
pub use models::CustomFieldOption;
pub use models::CustomFieldProperties;
pub use models::Customer;
pub use models::CustomerBillingAddress;
pub use models::CustomerBillingAddressParams;
pub use models::Discount;
pub use models::ListCheckoutSessionsParams;
pub use models::ListMetersParams;
pub use models::ListProductsParams;
pub use models::ListSubscriptionsParams;
pub use models::Media;
pub use models::Meter;
pub use models::MeterAggregation;
pub use models::MeterFilter;
pub use models::MeterFilterClause;
pub use models::MeterParams;
pub use models::Page;
pub use models::Pagination;
pub use models::Price;
pub use models::PriceMeter;
pub use models::PriceParams;
pub use models::Product;
pub use models::ProductParams;
pub use models::Subscription;
pub use models::SubscriptionMeter;
pub use models::SubscriptionParams;
pub use models::UpdateMeterParams;
pub use models::UpdatePriceParams;
pub use models::UpdateProductParams;
pub use time::Timestamp;
pub use web::has_host;
pub use web::join_err_text;
pub use web::join_ok;
pub use web::join_text;
pub use web::parse_text;
pub use web::path_of;
pub use web::set_path_text;
pub use web::url_parses;
pub use web::url_text;

use vstd::string::StrSliceExecFns;
use vstd::string::StringExecFns;

use web::parse_url;
use web::url_has_host;
use web::url_join;
use web::url_path;
use web::url_set_path;

verus! {

/// An error returned by the client: the remote API's error taxonomy,
/// plus `Request` for a request that could not be made at all.
#[derive(Debug)]
pub enum PolarError {
    NotFound,
    Request(String),
    Unauthorized,
    Unknown(String),
    Validation(String),
}

impl PolarError {
    /// The message of the error, as text.
    pub open spec fn spec_message(&self) -> Seq<char> {
        match self {
            PolarError::Request(msg) => "Request error: "@ + msg@,
            PolarError::NotFound => "Not found"@,
            PolarError::Unauthorized => "Unauthorized"@,
            PolarError::Unknown(msg) => "Unknown error: "@ + msg@,
            PolarError::Validation(msg) => "Validation error: "@ + msg@,
        }
    }

    /// The message of the error, as text.
    pub fn message(&self) -> (r: String)
        ensures
            r@ == self.spec_message(),
    {
        match self {
            PolarError::Request(msg) => String::from_str("Request error: ").concat(msg.as_str()),
            PolarError::NotFound => String::from_str("Not found"),
            PolarError::Unauthorized => String::from_str("Unauthorized"),
            PolarError::Unknown(msg) => String::from_str("Unknown error: ").concat(msg.as_str()),
            PolarError::Validation(msg) => String::from_str("Validation error: ").concat(
                msg.as_str(),
            ),
        }
    }
}

/// The result of a request to the remote API.
pub type PolarResult<T> = Result<T, PolarError>;

/// The HTTP method of a request to the remote API.
#[derive(Debug, Clone, Copy, PartialEq, Eq, Structural)]
pub enum HttpMethod {
    Delete,
    Get,
    Patch,
    Post,
}

impl HttpMethod {
    /// The status code the remote API answers with on success: 201 for a
    /// creation, 200 otherwise.
    pub open spec fn spec_success_status(&self) -> u16 {
        if self is Post {
            201u16
        } else {
            200u16
        }
    }

    /// The status code the remote API answers with on success.
    pub fn success_status(&self) -> (r: u16)
        ensures
            r == self.spec_success_status(),
    {
        match self {
            HttpMethod::Post => 201,
            _ => 200,
        }
    }
}

/// What a response of the remote API means for a request sent with
/// `method`: on the success status, the body (for the caller to decode);
/// on 404 (except after a creation, where the remote API does not answer
/// it), `NotFound`; on 422, `Validation` with the body; on 401,
/// `Unauthorized`; on anything else, `Unknown` with the body.
pub open spec fn response_outcome(
    method: HttpMethod,
    status: u16,
    body: Seq<char>,
    r: PolarResult<String>,
) -> bool {
    if status == method.spec_success_status() {
        r matches Ok(b) && b@ == body
    } else if !(method is Post) && status == 404 {
        r matches Err(e) && e is NotFound
    } else if status == 422 {
        r matches Err(e) && (e matches PolarError::Validation(m) && m@ == body)
    } else if status == 401 {
        r matches Err(e) && e is Unauthorized
    } else {
        r matches Err(e) && (e matches PolarError::Unknown(m) && m@ == body)
    }
}

/// Maps the status code and body of a response to the result of the
/// request, as `response_outcome` states it.
pub fn classify_response(method: &HttpMethod, status: u16, body: String) -> (r: PolarResult<
    String,
>)
    ensures
        response_outcome(*method, status, body@, r),
{
    let ok = method.success_status();
    if status == ok {
        Ok(body)
    } else if *method != HttpMethod::Post && status == 404 {
        Err(PolarError::NotFound)
    } else if status == 422 {
        Err(PolarError::Validation(body))
    } else if status == 401 {
        Err(PolarError::Unauthorized)
    } else {
        Err(PolarError::Unknown(body))
    }
}

/// An endpoint of the remote API: the method of the request and its
/// path, relative to the base URL.
pub struct Endpoint {
    pub method: HttpMethod,
    pub path: String,
}

/// The endpoint that creates a checkout session.
pub fn create_checkout_session_endpoint() -> (e: Endpoint)
    ensures
        e.method is Post,
        e.path@ == "checkouts"@,
{
    Endpoint { method: HttpMethod::Post, path: String::from_str("checkouts") }
}

/// The endpoint that fetches the checkout session `id`.
pub fn get_checkout_session_endpoint(id: &Uuid) -> (e: Endpoint)
    ensures
        e.method is Get,
        e.path@ == "checkouts/"@ + uuid_text(id.bytes@),
{
    let text = id.to_text();
    Endpoint { method: HttpMethod::Get, path: String::from_str("checkouts/").concat(text.as_str()) }
}

/// The endpoint that updates the subscription `id`.
pub fn update_subscription_endpoint(id: &Uuid) -> (e: Endpoint)
    ensures
        e.method is Patch,
        e.path@ == "subscriptions/"@ + uuid_text(id.bytes@),
{
    let text = id.to_text();
    Endpoint {
        method: HttpMethod::Patch,
        path: String::from_str("subscriptions/").concat(text.as_str()),
    }
}

/// The endpoint that revokes the subscription `id`, cancelling it
/// immediately.
pub fn revoke_subscription_endpoint(id: &Uuid) -> (e: Endpoint)
    ensures
        e.method is Delete,
        e.path@ == "subscriptions/"@ + uuid_text(id.bytes@),
{
    let text = id.to_text();
    Endpoint {
        method: HttpMethod::Delete,
        path: String::from_str("subscriptions/").concat(text.as_str()),
    }
}

/// Whether the last character of `s` is a slash.
pub open spec fn ends_with_slash(s: Seq<char>) -> bool {
    s.len() > 0 && s.last() == '/'
}

/// Whether the last character of `s` is a slash.
fn str_ends_with_slash(s: &str) -> (r: bool)
    ensures
        r == ends_with_slash(s@),
{
    let n = s.unicode_len();
    if n == 0 {
        false
    } else {
        s.get_char(n - 1) == '/'
    }
}

/// Whether a string is accepted as a base URL: it parses as an absolute
/// URL, and that URL has a host to send requests to.
pub open spec fn base_url_accepted(s: Seq<char>) -> bool {
    url_parses(s) && has_host(parse_text(s))
}

/// The serialization of the base URL a client holds for an accepted
/// input `s`: the parsed URL itself when its path already ends with a
/// slash, and otherwise that URL with a slash appended to its path.
pub open spec fn normalized_base_text(s: Seq<char>) -> Seq<char> {
    let parsed = parse_text(s);
    if ends_with_slash(path_of(parsed)) {
        parsed
    } else {
        set_path_text(parsed, path_of(parsed) + "/"@)
    }
}

/// A client of the remote API: the base URL requests are resolved
/// against, and the access token sent with each request.
pub struct Polar {
    base_url: url::Url,
    access_token: String,
}

impl Polar {
    /// The access token the client was made with.
    pub closed spec fn spec_access_token(&self) -> Seq<char> {
        self.access_token@
    }

    /// The serialization of the base URL the client holds.
    pub closed spec fn spec_base_url(&self) -> Seq<char> {
        url_text(self.base_url)
    }

    /// A client of the API at `base_url`, authenticating with
    /// `access_token`. The access token must not be empty and the base
    /// URL must parse as an absolute URL with a host; the base URL's
    /// path is given a trailing slash where it has none, so that
    /// request paths resolve under it.
    pub fn new(base_url: &str, access_token: &str) -> (r: PolarResult<Polar>)
        ensures
            r is Ok <==> access_token@.len() != 0 && base_url_accepted(base_url@),
            access_token@.len() == 0 ==> (r matches Err(e) && (e matches PolarError::Request(m)
                && m@ == "access_token cannot be empty"@)),
            access_token@.len() != 0 && !base_url_accepted(base_url@) ==> (r matches Err(e) && (
            e matches PolarError::Request(m) && m@ == "base_url is not a valid URL"@)),
            r matches Ok(p) ==> p.spec_access_token() == access_token@ && p.spec_base_url()
                == normalized_base_text(base_url@),
    {
        if access_token.is_empty() {
            return Err(PolarError::Request(String::from_str("access_token cannot be empty")));
        }
        match parse_url(base_url) {
            None => Err(PolarError::Request(String::from_str("base_url is not a valid URL"))),
            Some(mut u) => {
                if !url_has_host(&u) {
                    return Err(
                        PolarError::Request(String::from_str("base_url is not a valid URL")),
                    );
                }
                let path = url_path(&u);
                if !str_ends_with_slash(path.as_str()) {
                    let slashed = path.concat("/");
                    url_set_path(&mut u, slashed.as_str());
                }
                Ok(Polar { base_url: u, access_token: access_token.to_owned() })
            },
        }
    }

    /// The access token sent with each request.
    pub fn access_token(&self) -> (r: &str)
        ensures
            r@ == self.spec_access_token(),
    {
        self.access_token.as_str()
    }

    /// The absolute URL for a request to `path`: the path resolved
    /// against the base URL, as `join_text` names it; a `Request` error
    /// with the resolution error's message exactly when the resolution
    /// fails.
    pub fn request_url(&self, path: &str) -> (r: PolarResult<url::Url>)
        ensures
            r is Ok <==> join_ok(self.spec_base_url(), path@),
            r matches Ok(u) ==> url_text(u) == join_text(self.spec_base_url(), path@),
            r matches Err(e) ==> (e matches PolarError::Request(m) && m@ == join_err_text(
                self.spec_base_url(),
                path@,
            )),
    {
        match url_join(&self.base_url, path) {
            Ok(u) => Ok(u),
            Err(m) => Err(PolarError::Request(m)),
        }
    }
}

} // verus!
