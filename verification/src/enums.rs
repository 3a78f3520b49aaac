use vstd::prelude::*;

verus! {

/// How the amount of a price is determined.
#[derive(Debug, Clone, Copy, PartialEq, Eq)]
pub enum AmountType {
    Fixed,
    Custom,
    Free,
    MeteredUnit,
}

/// The kind of benefit granted by a product.
#[derive(Debug, Clone, Copy, PartialEq, Eq)]
pub enum BenefitType {
    Custom,
    Discord,
    GithubRepository,
    Downloadables,
    LicenseKeys,
    MeterCredit,
}

/// Whether a billing address field is required, optional or disabled
/// in the checkout form.
#[derive(Debug, Clone, Copy, PartialEq, Eq)]
pub enum BillingAddressField {
    Required,
    Optional,
    Disabled,
}

/// Sorting criterion for listing checkout sessions. The `Desc` variants
/// sort in descending order.
#[derive(Debug, Clone, Copy, PartialEq, Eq)]
pub enum CheckoutSessionsSorting {
    CreatedAt,
    CreatedAtDesc,
    ExpiresAt,
    ExpiresAtDesc,
    Status,
    StatusDesc,
}

/// Lifecycle state of a checkout session on the remote side.
#[derive(Debug, Clone, Copy, PartialEq, Eq, Structural)]
pub enum CheckoutSessionStatus {
    Open,
    Expired,
    Confirmed,
    Succeeded,
    Failed,
}

impl CheckoutSessionStatus {
    /// Whether the checkout session has completed successfully.
    pub fn is_succeeded(&self) -> (r: bool)
        ensures
            r == (self is Succeeded),
    {
        *self == Self::Succeeded
    }
}

/// Reason a customer gave for cancelling a subscription.
#[derive(Debug, Clone, Copy, PartialEq, Eq)]
pub enum CustomerCancellationReason {
    CustomerService,
    LowQuality,
    MissingFeatures,
    SwitchedService,
    TooComplex,
    TooExpensive,
    Unused,
    Other,
}

/// The kind of value a custom field holds.
#[derive(Debug, Clone, Copy, PartialEq, Eq)]
pub enum CustomFieldType {
    Text,
    Number,
    Date,
    Checkbox,
    Select,
}

/// For how long a discount applies.
#[derive(Debug, Clone, Copy, PartialEq, Eq)]
pub enum DiscountDuration {
    Once,
    Forever,
    Repeating,
}

/// Whether a discount is a fixed amount or a percentage.
#[derive(Debug, Clone, Copy, PartialEq, Eq)]
pub enum DiscountType {
    Fixed,
    Percentage,
}

/// Aggregation applied to filtered events to compute a meter.
#[derive(Debug, Clone, Copy, PartialEq, Eq)]
pub enum MeterAggregationFunc {
    Count,
    Sum,
    Max,
    Min,
    Avg,
}

/// How the clauses of a meter filter are combined.
#[derive(Debug, Clone, Copy, PartialEq, Eq)]
pub enum MeterFilterConjunction {
    And,
    Or,
}

/// Comparison operator of a meter filter clause.
#[derive(Debug, Clone, Copy, PartialEq, Eq)]
pub enum MeterFilterOperator {
    Eq,
    Ne,
    Gt,
    Gte,
    Lt,
    Lte,
    Like,
    NotLike,
}

/// Sorting criterion for listing meters. The `Desc` variants sort in
/// descending order.
#[derive(Debug, Clone, Copy, PartialEq, Eq)]
pub enum MetersSorting {
    CreatedAt,
    CreatedAtDesc,
    Name,
    NameDesc,
}

/// Payment processor handling a checkout session.
#[derive(Debug, Clone, Copy, PartialEq, Eq)]
pub enum PaymentProcessor {
    Stripe,
}

/// Whether a price is charged once or on every billing cycle.
#[derive(Debug, Clone, Copy, PartialEq, Eq)]
pub enum PriceType {
    OneTime,
    Recurring,
}

/// Sorting criterion for listing products. The `Desc` variants sort in
/// descending order.
#[derive(Debug, Clone, Copy, PartialEq, Eq)]
pub enum ProductsSorting {
    CreatedAt,
    CreatedAtDesc,
    ExpiresAt,
    ExpiresAtDesc,
    Status,
    StatusDesc,
}

/// How proration is billed when a subscription changes mid-cycle.
#[derive(Debug, Clone, Copy, PartialEq, Eq)]
pub enum ProrationBehavior {
    Invoice,
    Prorate,
}

/// Billing cycle of a recurring product.
#[derive(Debug, Clone, Copy, PartialEq, Eq)]
pub enum RecurringInterval {
    Month,
    Year,
}

/// Sorting criterion for listing subscriptions. The `Desc` variants sort
/// in descending order.
#[derive(Debug, Clone, Copy, PartialEq, Eq)]
pub enum SubscriptionsSorting {
    CreatedAt,
    CreatedAtDesc,
    StartedAt,
    StartedAtDesc,
    Status,
    StatusDesc,
}

/// Lifecycle state of a subscription on the remote side.
#[derive(Debug, Clone, Copy, PartialEq, Eq)]
pub enum SubscriptionStatus {
    Incomplete,
    IncompleteExpired,
    Trialing,
    Active,
    PastDue,
    Cancelled,
    Unpaid,
}

} // verus!
