use vstd::prelude::*;

use std::collections::HashMap;

use crate::enums::AmountType;
use crate::enums::BenefitType;
use crate::enums::BillingAddressField;
use crate::enums::CheckoutSessionStatus;
use crate::enums::CheckoutSessionsSorting;
use crate::enums::CustomFieldType;
use crate::enums::CustomerCancellationReason;
use crate::enums::DiscountDuration;
use crate::enums::DiscountType;
use crate::enums::MeterAggregationFunc;
use crate::enums::MeterFilterConjunction;
use crate::enums::MeterFilterOperator;
use crate::enums::MetersSorting;
use crate::enums::PaymentProcessor;
use crate::enums::PriceType;
use crate::enums::ProductsSorting;
use crate::enums::ProrationBehavior;
use crate::enums::RecurringInterval;
use crate::enums::SubscriptionStatus;
use crate::enums::SubscriptionsSorting;
use crate::ids::Uuid;
use crate::time::Timestamp;

verus! {

/// A custom field as attached to a resource.
pub struct AttachedCustomField {
    /// ID of the custom field.
    pub custom_field_id: Uuid,
    /// The custom field itself.
    pub custom_field: CustomField,
    /// Order of the custom field in the resource.
    pub order: usize,
    /// Whether a value is required for this custom field.
    pub required: bool,
}

/// Request body for attaching a custom field to a resource.
pub struct AttachedCustomFieldParams {
    /// ID of the custom field.
    pub custom_field_id: Uuid,
    /// Whether a value is required for this custom field.
    pub required: bool,
}

/// A benefit granted by a product.
pub struct Benefit {
    /// The ID of the benefit.
    pub id: Uuid,
    /// Creation timestamp of the object.
    pub created_at: Timestamp,
    /// Last modification timestamp of the object.
    pub modified_at: Option<Timestamp>,
    /// The kind of the benefit.
    pub kind: BenefitType,
    /// The description of the benefit.
    pub description: String,
    /// Whether the benefit is selectable when creating a product.
    pub selectable: bool,
    /// Whether the benefit is deletable.
    pub deletable: bool,
    /// The ID of the organization owning the benefit.
    pub organization_id: Uuid,
}

/// How each billing address field appears in the checkout form.
pub struct BillingAddressFields {
    pub country: BillingAddressField,
    pub state: BillingAddressField,
    pub city: BillingAddressField,
    pub postal_code: BillingAddressField,
    pub line1: BillingAddressField,
    pub line2: BillingAddressField,
}

/// A product as embedded in a checkout session.
pub struct CheckoutProduct {
    /// Creation timestamp of the object.
    pub created_at: Timestamp,
    /// Last modification timestamp of the object.
    pub modified_at: Option<Timestamp>,
    /// The ID of the product.
    pub id: Uuid,
    /// The name of the product.
    pub name: String,
    /// The description of the product.
    pub description: Option<String>,
    /// The recurring interval of the product; `None` for a one-time purchase.
    pub recurring_interval: Option<RecurringInterval>,
    /// Whether the product is a subscription.
    pub is_recurring: bool,
    /// Whether the product is archived and no longer available.
    pub is_archived: bool,
    /// The ID of the organization owning the product.
    pub organization_id: Uuid,
    /// List of prices for this product.
    pub prices: Vec<Price>,
    /// List of benefits granted by the product.
    pub benefits: Vec<Benefit>,
    /// List of medias associated to the product.
    pub medias: Vec<Media>,
}

/// A checkout session.
pub struct CheckoutSession {
    /// Creation timestamp of the object.
    pub created_at: Timestamp,
    /// Last modification timestamp of the object.
    pub modified_at: Option<Timestamp>,
    /// The ID of the object.
    pub id: Uuid,
    /// Payment processor used.
    pub payment_processor: PaymentProcessor,
    /// Status of the checkout session.
    pub status: CheckoutSessionStatus,
    /// Client secret used to update and complete the checkout session
    /// from the client.
    pub client_secret: String,
    /// URL where the customer can access the checkout session.
    pub url: url::Url,
    /// Expiration date and time of the checkout session.
    pub expires_at: Timestamp,
    /// URL where the customer is redirected after a successful payment.
    pub success_url: url::Url,
    /// Origin of the page embedding the checkout, when embedded.
    pub embed_origin: Option<String>,
    /// Amount in cents, before discounts and taxes.
    pub amount: u32,
    /// Discount amount in cents.
    pub discount_amount: u32,
    /// Amount in cents, after discounts but before taxes.
    pub net_amount: u32,
    /// Sales tax amount in cents; `None` while it cannot be calculated yet.
    pub tax_amount: Option<u32>,
    /// Amount in cents, after discounts and taxes.
    pub total_amount: u32,
    /// Currency code of the checkout session.
    pub currency: String,
    /// ID of the product to checkout.
    pub product_id: Uuid,
    /// ID of the product price to checkout.
    pub product_price_id: Uuid,
    /// ID of the discount applied to the checkout.
    pub discount_id: Option<Uuid>,
    /// Whether the customer may apply discount codes.
    pub allow_discount_codes: bool,
    /// Whether the customer must fill their full billing address.
    pub require_billing_address: bool,
    /// Whether the discount is applicable to the checkout.
    pub is_discount_applicable: bool,
    /// Whether the product price is free, regardless of discounts.
    pub is_free_product_price: bool,
    /// Whether the checkout requires payment.
    pub is_payment_required: bool,
    /// Whether the checkout requires setting up a payment method.
    pub is_payment_setup_required: bool,
    /// Whether the checkout requires a payment form.
    pub is_payment_form_required: bool,
    pub customer_id: Option<Uuid>,
    /// Whether the customer is a business rather than an individual.
    pub is_business_customer: bool,
    /// Name of the customer.
    pub customer_name: Option<String>,
    /// Email address of the customer.
    pub customer_email: Option<String>,
    pub customer_ip_address: Option<String>,
    pub customer_billing_name: Option<String>,
    /// Billing address of the customer.
    pub customer_billing_address: Option<CustomerBillingAddress>,
    pub customer_tax_id: Option<String>,
    pub payment_processor_metadata: HashMap<String, String>,
    /// How each billing address field appears in the checkout form.
    pub billing_address_fields: BillingAddressFields,
    pub metadata: HashMap<String, String>,
    pub external_customer_id: Option<String>,
    /// List of products available to select.
    pub products: Vec<CheckoutProduct>,
    /// Product selected to checkout.
    pub product: CheckoutProduct,
    /// Price of the selected product.
    pub product_price: Price,
    /// Discount applied to the checkout, if any.
    pub discount: Option<Discount>,
    pub subscription_id: Option<Uuid>,
    pub attached_custom_fields: Vec<AttachedCustomField>,
    pub customer_metadata: HashMap<String, String>,
    pub custom_field_data: HashMap<String, Option<String>>,
}

/// Request body for creating a checkout session.
pub struct CheckoutSessionParams {
    /// Product IDs available to select at that checkout; the first one is
    /// selected by default.
    pub products: Vec<Uuid>,
    /// Key-value object allowing additional information to be stored.
    pub metadata: HashMap<String, String>,
    /// Key-value object storing custom field values.
    pub custom_field_data: HashMap<String, String>,
    /// ID of the discount to apply to the checkout.
    pub discount_id: Option<Uuid>,
    /// Whether the customer may apply discount codes.
    pub allow_discount_codes: bool,
    /// Whether the customer must fill their full billing address.
    pub require_billing_address: bool,
    /// Amount in cents, before discounts and taxes; only used for custom
    /// prices.
    pub amount: Option<u32>,
    /// ID of an existing customer in the organization.
    pub customer_id: Option<Uuid>,
    /// Whether the customer is a business rather than an individual.
    pub is_business_customer: bool,
    /// ID of the customer in the caller's own system.
    pub external_customer_id: Option<String>,
    /// Name of the customer.
    pub customer_name: Option<String>,
    /// Email address of the customer.
    pub customer_email: Option<String>,
    pub customer_ip_address: Option<String>,
    pub customer_billing_name: Option<String>,
    /// Billing address of the customer.
    pub customer_billing_address: Option<CustomerBillingAddressParams>,
    pub customer_tax_id: Option<String>,
    /// Key-value object copied to the created customer.
    pub customer_metadata: HashMap<String, String>,
    /// ID of a subscription to upgrade.
    pub subscription_id: Option<Uuid>,
    /// URL where the customer is redirected after a successful payment.
    pub success_url: Option<url::Url>,
    /// Origin of the page embedding the checkout, when embedded.
    pub embed_origin: Option<String>,
}

impl Default for CheckoutSessionParams {
    /// A request with no products, empty key-value objects, both flags
    /// off and nothing else preset.
    fn default() -> (r: Self)
        ensures
            r.products@ == Seq::<Uuid>::empty(),
            r.metadata@ == Map::<String, String>::empty(),
            r.custom_field_data@ == Map::<String, String>::empty(),
            r.discount_id is None,
            !r.allow_discount_codes,
            !r.require_billing_address,
            r.amount is None,
            r.customer_id is None,
            !r.is_business_customer,
            r.external_customer_id is None,
            r.customer_name is None,
            r.customer_email is None,
            r.customer_ip_address is None,
            r.customer_billing_name is None,
            r.customer_billing_address is None,
            r.customer_tax_id is None,
            r.customer_metadata@ == Map::<String, String>::empty(),
            r.subscription_id is None,
            r.success_url is None,
            r.embed_origin is None,
    {
        CheckoutSessionParams {
            products: Vec::new(),
            metadata: HashMap::new(),
            custom_field_data: HashMap::new(),
            discount_id: None,
            allow_discount_codes: false,
            require_billing_address: false,
            amount: None,
            customer_id: None,
            is_business_customer: false,
            external_customer_id: None,
            customer_name: None,
            customer_email: None,
            customer_ip_address: None,
            customer_billing_name: None,
            customer_billing_address: None,
            customer_tax_id: None,
            customer_metadata: HashMap::new(),
            subscription_id: None,
            success_url: None,
            embed_origin: None,
        }
    }
}

/// A custom field.
pub struct CustomField {
    /// Creation timestamp of the object.
    pub created_at: Timestamp,
    /// Last modification timestamp of the object.
    pub modified_at: Option<Timestamp>,
    /// The ID of the object.
    pub id: Uuid,
    pub metadata: HashMap<String, String>,
    pub kind: CustomFieldType,
    /// Identifier of the custom field, used as key when storing the value.
    pub slug: String,
    /// Name of the custom field.
    pub name: String,
    /// The ID of the organization owning the custom field.
    pub organization_id: Uuid,
    pub properties: CustomFieldProperties,
}

/// One selectable option of a custom field.
pub struct CustomFieldOption {
    pub value: String,
    pub label: String,
}

/// Form properties of a custom field.
pub struct CustomFieldProperties {
    pub form_label: String,
    pub form_help_text: String,
    pub form_placeholder: String,
    pub textarea: Option<bool>,
    pub min_length: Option<usize>,
    pub max_length: Option<usize>,
    pub ge: Option<usize>,
    pub le: Option<usize>,
    pub options: Option<Vec<CustomFieldOption>>,
}

/// A customer.
pub struct Customer {
    /// The ID of the customer.
    pub id: Uuid,
    /// Creation timestamp of the object.
    pub created_at: Timestamp,
    /// Last modification timestamp of the object.
    pub modified_at: Option<Timestamp>,
    pub metadata: HashMap<String, String>,
    /// The ID of the customer in the caller's own system.
    pub external_id: Option<String>,
    /// The email address of the customer.
    pub email: String,
    /// Whether the customer email address is verified.
    pub email_verified: bool,
    /// The name of the customer.
    pub name: Option<String>,
    pub billing_address: Option<CustomerBillingAddress>,
    pub tax_id: Option<Vec<String>>,
    /// The ID of the organization owning the customer.
    pub organization_id: Uuid,
    /// Timestamp for when the customer was soft deleted.
    pub deleted_at: Option<Timestamp>,
    pub avatar_url: String,
}

/// Billing address of a customer.
pub struct CustomerBillingAddress {
    /// Two-letter country code.
    pub country: String,
    pub line1: Option<String>,
    pub line2: Option<String>,
    pub postal_code: Option<String>,
    pub city: Option<String>,
    pub state: Option<String>,
}

/// Billing address of a customer, as sent in a request.
pub type CustomerBillingAddressParams = CustomerBillingAddress;

/// A discount.
pub struct Discount {
    pub duration: DiscountDuration,
    pub duration_in_months: Option<usize>,
    pub kind: DiscountType,
    pub amount: Option<u32>,
    pub currency: Option<String>,
    pub basis_points: Option<usize>,
    /// The ID of the object.
    pub id: Uuid,
    pub name: String,
    pub code: Option<String>,
}

/// Query parameters for listing checkout sessions.
pub struct ListCheckoutSessionsParams {
    /// Filter by organization ID.
    pub organization_id: Option<Vec<Uuid>>,
    /// Filter by product ID.
    pub product_id: Option<Vec<Uuid>>,
    /// Filter by customer ID.
    pub customer_id: Option<Vec<Uuid>>,
    /// Filter by checkout session status.
    pub status: Option<CheckoutSessionStatus>,
    /// Filter by customer email.
    pub query: Option<String>,
    /// Page number, defaults to 1.
    pub page: Option<usize>,
    /// Size of a page, defaults to 10; at most 100.
    pub limit: Option<u8>,
    /// Sorting criteria, applied in order.
    pub sorting: Option<Vec<CheckoutSessionsSorting>>,
}

impl Default for ListCheckoutSessionsParams {
    /// A listing without any filter, paging or sorting choice.
    fn default() -> (r: Self)
        ensures
            r.organization_id is None,
            r.product_id is None,
            r.customer_id is None,
            r.status is None,
            r.query is None,
            r.page is None,
            r.limit is None,
            r.sorting is None,
    {
        ListCheckoutSessionsParams {
            organization_id: None,
            product_id: None,
            customer_id: None,
            status: None,
            query: None,
            page: None,
            limit: None,
            sorting: None,
        }
    }
}

/// Query parameters for listing meters.
pub struct ListMetersParams {
    /// Filter by organization ID.
    pub organization_id: Option<Vec<Uuid>>,
    /// Filter by name.
    pub query: Option<String>,
    /// Page number, defaults to 1.
    pub page: Option<usize>,
    /// Size of a page, defaults to 10; at most 100.
    pub limit: Option<u8>,
    /// Sorting criteria, applied in order.
    pub sorting: Option<Vec<MetersSorting>>,
    /// Filter by metadata key-value pairs.
    pub metadata: Option<HashMap<String, String>>,
}

impl Default for ListMetersParams {
    /// A listing without any filter, paging or sorting choice.
    fn default() -> (r: Self)
        ensures
            r.organization_id is None,
            r.query is None,
            r.page is None,
            r.limit is None,
            r.sorting is None,
            r.metadata is None,
    {
        ListMetersParams {
            organization_id: None,
            query: None,
            page: None,
            limit: None,
            sorting: None,
            metadata: None,
        }
    }
}

/// Query parameters for listing products.
pub struct ListProductsParams {
    /// Filter by product ID.
    pub id: Option<Vec<Uuid>>,
    /// Filter by organization ID.
    pub organization_id: Option<Vec<Uuid>>,
    /// Filter by product name.
    pub query: Option<String>,
    /// Filter on archived products.
    pub is_archived: Option<bool>,
    /// Filter on recurring products.
    pub is_recurring: Option<bool>,
    /// Filter products granting a specific benefit.
    pub benefit_id: Option<Vec<Uuid>>,
    /// Page number, defaults to 1.
    pub page: Option<usize>,
    /// Size of a page, defaults to 10; at most 100.
    pub limit: Option<u8>,
    /// Sorting criteria, applied in order.
    pub sorting: Option<Vec<ProductsSorting>>,
    /// Filter by metadata key-value pairs.
    pub metadata: Option<HashMap<String, String>>,
}

impl Default for ListProductsParams {
    /// A listing without any filter, paging or sorting choice.
    fn default() -> (r: Self)
        ensures
            r.id is None,
            r.organization_id is None,
            r.query is None,
            r.is_archived is None,
            r.is_recurring is None,
            r.benefit_id is None,
            r.page is None,
            r.limit is None,
            r.sorting is None,
            r.metadata is None,
    {
        ListProductsParams {
            id: None,
            organization_id: None,
            query: None,
            is_archived: None,
            is_recurring: None,
            benefit_id: None,
            page: None,
            limit: None,
            sorting: None,
            metadata: None,
        }
    }
}

/// Query parameters for listing subscriptions.
pub struct ListSubscriptionsParams {
    /// Filter by organization ID.
    pub organization_id: Option<Vec<Uuid>>,
    /// Filter by product ID.
    pub product_id: Option<Vec<Uuid>>,
    /// Filter by customer ID.
    pub customer_id: Option<Vec<Uuid>>,
    /// Filter by customer external ID.
    pub external_customer_id: Option<Vec<String>>,
    /// Filter by discount ID.
    pub discount_id: Option<Vec<Uuid>>,
    /// Filter by active or inactive subscription.
    pub active: Option<bool>,
    /// Page number, defaults to 1.
    pub page: Option<usize>,
    /// Size of a page, defaults to 10; at most 100.
    pub limit: Option<u8>,
    /// Sorting criteria, applied in order.
    pub sorting: Option<Vec<SubscriptionsSorting>>,
    /// Filter by metadata key-value pairs.
    pub metadata: Option<HashMap<String, String>>,
}

impl Default for ListSubscriptionsParams {
    /// A listing without any filter, paging or sorting choice.
    fn default() -> (r: Self)
        ensures
            r.organization_id is None,
            r.product_id is None,
            r.customer_id is None,
            r.external_customer_id is None,
            r.discount_id is None,
            r.active is None,
            r.page is None,
            r.limit is None,
            r.sorting is None,
            r.metadata is None,
    {
        ListSubscriptionsParams {
            organization_id: None,
            product_id: None,
            customer_id: None,
            external_customer_id: None,
            discount_id: None,
            active: None,
            page: None,
            limit: None,
            sorting: None,
            metadata: None,
        }
    }
}

/// A media file associated to a product.
pub struct Media {
    /// The ID of the object.
    pub id: Uuid,
    pub organization_id: Uuid,
    pub name: String,
    pub path: String,
    pub mime_type: String,
    pub size: u64,
    pub storage_version: Option<String>,
    pub checksum_etag: Option<String>,
    pub checksum_sha256_base64: Option<String>,
    pub checksum_sha256_hex: Option<String>,
    pub last_modified_at: Option<Timestamp>,
    pub version: Option<String>,
    pub service: String,
    pub is_uploaded: bool,
    pub created_at: Timestamp,
    pub size_readable: String,
    pub public_url: url::Url,
}

/// A usage meter.
pub struct Meter {
    pub metadata: HashMap<String, String>,
    /// Creation timestamp of the object.
    pub created_at: Timestamp,
    /// Last modification timestamp of the object.
    pub modified_at: Option<Timestamp>,
    /// The ID of the object.
    pub id: Uuid,
    /// The name of the meter.
    pub name: String,
    /// The filter to apply on events used to calculate the meter.
    pub filter: MeterFilter,
    /// The aggregation applied on the filtered events.
    pub aggregation: MeterAggregation,
    /// The ID of the organization owning the meter.
    pub organization_id: Uuid,
}

/// Aggregation applied on filtered events to calculate a meter.
pub struct MeterAggregation {
    pub func: MeterAggregationFunc,
    pub property: Option<String>,
}

/// Filter applied on events used to calculate a meter.
pub struct MeterFilter {
    pub conjunction: MeterFilterConjunction,
    pub clauses: Vec<MeterFilterClause>,
}

/// One clause of a meter filter; either a comparison or a nested filter.
pub struct MeterFilterClause {
    pub property: Option<String>,
    pub operator: Option<MeterFilterOperator>,
    pub value: Option<String>,
    pub conjunction: Option<MeterFilterConjunction>,
    pub clauses: Option<Vec<MeterFilterClause>>,
}

/// Request body for creating a meter.
pub struct MeterParams {
    /// The name of the meter.
    pub name: String,
    /// The filter to apply on events used to calculate the meter.
    pub filter: MeterFilter,
    /// The aggregation applied on the filtered events.
    pub aggregation: MeterAggregation,
    /// Key-value object allowing additional information to be stored.
    pub metadata: HashMap<String, String>,
    /// The ID of the organization owning the meter.
    pub organization_id: Option<Uuid>,
}

/// One page of a paginated listing.
pub struct Page<T> {
    pub items: Vec<T>,
    pub pagination: Pagination,
}

/// Position of a page within a paginated listing.
pub struct Pagination {
    pub total_count: usize,
    pub max_page: usize,
}

/// A price of a product.
pub struct Price {
    /// Creation timestamp of the object.
    pub created_at: Timestamp,
    /// Last modification timestamp of the object.
    pub modified_at: Option<Timestamp>,
    /// The ID of the price.
    pub id: Uuid,
    pub amount_type: AmountType,
    /// Whether the price is archived and no longer available.
    pub is_archived: bool,
    /// The ID of the product owning the price.
    pub product_id: Uuid,
    pub kind: PriceType,
    /// The currency; not set for a free price.
    pub price_currency: Option<String>,
    /// The price in cents; only for a fixed price.
    pub price_amount: Option<u32>,
    /// The minimum amount the customer can pay; only for a custom price.
    pub minimum_amount: Option<u32>,
    /// The maximum amount the customer can pay; only for a custom price.
    pub maximum_amount: Option<u32>,
    /// The initial amount shown to the customer; only for a custom price.
    pub preset_amount: Option<u32>,
    /// The price per unit in cents; only for a metered price.
    pub unit_amount: Option<String>,
    /// The maximum amount in cents that can be charged; only for a
    /// metered price.
    pub cap_amount: Option<u32>,
    /// The ID of the meter associated to the price; only for a metered
    /// price.
    pub meter_id: Option<Uuid>,
    /// The meter associated to the price; only for a metered price.
    pub meter: Option<PriceMeter>,
}

/// The meter associated to a metered price.
pub struct PriceMeter {
    /// The ID of the object.
    pub id: Uuid,
    /// The name of the meter.
    pub name: String,
}

/// Request body for creating a price.
pub struct PriceParams {
    pub amount_type: AmountType,
    /// The currency; not required for a free price.
    pub price_currency: Option<String>,
    /// The price in cents; only for a fixed price.
    pub price_amount: Option<u32>,
    /// The minimum amount the customer can pay; only for a custom price.
    pub minimum_amount: Option<u32>,
    /// The maximum amount the customer can pay; only for a custom price.
    pub maximum_amount: Option<u32>,
    /// The initial amount shown to the customer; only for a custom price.
    pub preset_amount: Option<u32>,
    /// The ID of the meter associated to the price; only for a metered
    /// price.
    pub meter_id: Option<Uuid>,
    /// The price per unit in cents; only for a metered price.
    pub unit_amount: Option<String>,
    /// The maximum amount in cents that can be charged; only for a
    /// metered price.
    pub cap_amount: Option<u32>,
}

/// A product.
pub struct Product {
    /// Creation timestamp of the object.
    pub created_at: Timestamp,
    /// Last modification timestamp of the object.
    pub modified_at: Option<Timestamp>,
    /// The ID of the product.
    pub id: Uuid,
    /// The name of the product.
    pub name: String,
    /// The description of the product.
    pub description: Option<String>,
    /// The recurring interval of the product; `None` for a one-time purchase.
    pub recurring_interval: Option<RecurringInterval>,
    /// Whether the product is a subscription.
    pub is_recurring: bool,
    /// Whether the product is archived and no longer available.
    pub is_archived: bool,
    /// The ID of the organization owning the product.
    pub organization_id: Uuid,
    pub metadata: HashMap<String, String>,
    /// List of prices for this product.
    pub prices: Vec<Price>,
    /// List of benefits granted by the product.
    pub benefits: Vec<Benefit>,
    /// List of medias associated to the product.
    pub medias: Vec<Media>,
    /// List of custom fields attached to the product.
    pub attached_custom_fields: Vec<AttachedCustomField>,
}

/// Request body for creating a product.
pub struct ProductParams {
    /// The name of the product.
    pub name: String,
    /// The recurring interval of the product; `None` for a one-time purchase.
    pub recurring_interval: Option<RecurringInterval>,
    /// List of available prices for this product.
    pub prices: Vec<PriceParams>,
    /// Key-value object allowing additional information to be stored.
    pub metadata: HashMap<String, String>,
    /// The description of the product.
    pub description: Option<String>,
    /// List of file IDs of the product's medias.
    pub medias: Option<Vec<Uuid>>,
    /// List of custom fields to attach.
    pub attached_custom_fields: Vec<AttachedCustomFieldParams>,
    /// The ID of the organization owning the product.
    pub organization_id: Option<Uuid>,
}

impl Default for ProductParams {
    /// A request with an empty name, no prices and nothing else preset.
    fn default() -> (r: Self)
        ensures
            r.name@ == Seq::<char>::empty(),
            r.recurring_interval is None,
            r.prices@ == Seq::<PriceParams>::empty(),
            r.metadata@ == Map::<String, String>::empty(),
            r.description is None,
            r.medias is None,
            r.attached_custom_fields@ == Seq::<AttachedCustomFieldParams>::empty(),
            r.organization_id is None,
    {
        ProductParams {
            name: String::new(),
            recurring_interval: None,
            prices: Vec::new(),
            metadata: HashMap::new(),
            description: None,
            medias: None,
            attached_custom_fields: Vec::new(),
            organization_id: None,
        }
    }
}

/// A subscription.
pub struct Subscription {
    /// Creation timestamp of the object.
    pub created_at: Timestamp,
    /// Last modification timestamp of the object.
    pub modified_at: Option<Timestamp>,
    /// The ID of the object.
    pub id: Uuid,
    /// The amount of the subscription.
    pub amount: u32,
    /// The currency of the subscription.
    pub currency: String,
    /// The interval at which the subscription recurs.
    pub recurring_interval: RecurringInterval,
    /// The status of the subscription.
    pub status: SubscriptionStatus,
    /// The start timestamp of the current billing period.
    pub current_period_start: Timestamp,
    /// The end timestamp of the current billing period.
    pub current_period_end: Option<Timestamp>,
    /// Whether the subscription will be canceled at the end of the
    /// current period.
    pub cancel_at_period_end: bool,
    /// The timestamp when the subscription was canceled.
    pub canceled_at: Option<Timestamp>,
    /// The timestamp when the subscription started.
    pub started_at: Option<Timestamp>,
    /// The timestamp when the subscription will end.
    pub ends_at: Option<Timestamp>,
    /// The timestamp when the subscription ended.
    pub ended_at: Option<Timestamp>,
    /// The ID of the subscribed customer.
    pub customer_id: Uuid,
    /// The ID of the subscribed product.
    pub product_id: Uuid,
    /// The ID of the applied discount, if any.
    pub discount_id: Option<Uuid>,
    pub checkout_id: Option<Uuid>,
    pub customer_cancellation_reason: Option<CustomerCancellationReason>,
    pub customer_cancellation_comment: Option<String>,
    pub metadata: HashMap<String, String>,
    pub customer: Customer,
    /// The subscribed product.
    pub product: Product,
    pub discount: Option<Discount>,
    /// List of enabled prices for the subscription.
    pub prices: Vec<Price>,
    /// List of meters associated with the subscription.
    pub meters: Vec<SubscriptionMeter>,
    /// Key-value object storing custom field values.
    pub custom_field_data: HashMap<String, String>,
}

/// A meter as associated with a subscription.
pub struct SubscriptionMeter {
    /// Creation timestamp of the object.
    pub created_at: Timestamp,
    /// Last modification timestamp of the object.
    pub modified_at: Option<Timestamp>,
    /// The ID of the object.
    pub id: Uuid,
    /// The number of consumed units so far in this billing period.
    pub consumed_units: usize,
    /// The number of credited units so far in this billing period.
    pub credited_units: usize,
    /// The amount due in cents so far in this billing period.
    pub amount: u32,
    /// The ID of the meter.
    pub meter_id: Uuid,
    /// The meter associated with this subscription.
    pub meter: Meter,
}

/// Request body for updating a subscription.
pub struct SubscriptionParams {
    /// Update the subscription to another product.
    pub product_id: Option<Uuid>,
    /// How to handle the proration billing.
    pub proration_behavior: Option<ProrationBehavior>,
    /// Apply a new discount; `None` removes the discount.
    pub discount_id: Option<Uuid>,
    /// Cancel an active subscription once the current period ends, or
    /// uncancel one currently set to be revoked at period end.
    pub cancel_at_period_end: Option<bool>,
    /// Customer reason for cancellation.
    pub customer_cancellation_reason: Option<CustomerCancellationReason>,
    /// Customer feedback on why they decided to cancel.
    pub customer_cancellation_comment: Option<String>,
    /// Cancel and revoke an active subscription immediately.
    pub revoke: Option<bool>,
}

impl Default for SubscriptionParams {
    /// A request that changes nothing.
    fn default() -> (r: Self)
        ensures
            r.product_id is None,
            r.proration_behavior is None,
            r.discount_id is None,
            r.cancel_at_period_end is None,
            r.customer_cancellation_reason is None,
            r.customer_cancellation_comment is None,
            r.revoke is None,
    {
        SubscriptionParams {
            product_id: None,
            proration_behavior: None,
            discount_id: None,
            cancel_at_period_end: None,
            customer_cancellation_reason: None,
            customer_cancellation_comment: None,
            revoke: None,
        }
    }
}

/// Request body for updating a meter.
pub struct UpdateMeterParams {
    /// Key-value object allowing additional information to be stored.
    pub metadata: HashMap<String, String>,
    /// The name of the meter.
    pub name: Option<String>,
    /// The filter to apply on events used to calculate the meter.
    pub filter: Option<MeterFilter>,
    /// The aggregation applied on the filtered events.
    pub aggregation: Option<MeterAggregation>,
}

/// Request body for updating a price.
pub struct UpdatePriceParams {
    /// Set to keep an existing price.
    pub id: Option<Uuid>,
    pub amount_type: Option<AmountType>,
    /// The currency; not required for a free price.
    pub price_currency: Option<String>,
    /// The price in cents; only for a fixed price.
    pub price_amount: Option<u32>,
    /// The minimum amount the customer can pay; only for a custom price.
    pub minimum_amount: Option<u32>,
    /// The maximum amount the customer can pay; only for a custom price.
    pub maximum_amount: Option<u32>,
    /// The initial amount shown to the customer; only for a custom price.
    pub preset_amount: Option<u32>,
    /// The ID of the meter associated to the price; only for a metered
    /// price.
    pub meter_id: Option<Uuid>,
    /// The price per unit in cents; only for a metered price.
    pub unit_amount: Option<String>,
    /// The maximum amount in cents that can be charged; only for a
    /// metered price.
    pub cap_amount: Option<u32>,
}

/// Request body for updating a product.
pub struct UpdateProductParams {
    /// Key-value object allowing additional information to be stored.
    pub metadata: HashMap<String, String>,
    /// The name of the product.
    pub name: Option<String>,
    /// The description of the product.
    pub description: Option<String>,
    /// The recurring interval of the product; `None` for a one-time purchase.
    pub recurring_interval: Option<RecurringInterval>,
    /// Whether the product is archived.
    pub is_archived: Option<bool>,
    /// List of available prices for this product.
    pub prices: Vec<UpdatePriceParams>,
    /// List of file IDs of the product's medias.
    pub medias: Option<Vec<Uuid>>,
    /// List of custom fields to attach.
    pub attached_custom_fields: Option<Vec<AttachedCustomFieldParams>>,
}

impl Default for UpdateProductParams {
    /// A request that changes nothing: an empty key-value object, no
    /// prices and every other field left unset.
    fn default() -> (r: Self)
        ensures
            r.metadata@ == Map::<String, String>::empty(),
            r.name is None,
            r.description is None,
            r.recurring_interval is None,
            r.is_archived is None,
            r.prices@ == Seq::<UpdatePriceParams>::empty(),
            r.medias is None,
            r.attached_custom_fields is None,
    {
        UpdateProductParams {
            metadata: HashMap::new(),
            name: None,
            description: None,
            recurring_interval: None,
            is_archived: None,
            prices: Vec::new(),
            medias: None,
            attached_custom_fields: None,
        }
    }
}

} // verus!
