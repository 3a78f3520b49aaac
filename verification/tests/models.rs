use polar::CheckoutSessionParams;
use polar::ListCheckoutSessionsParams;
use polar::ListMetersParams;
use polar::ListProductsParams;
use polar::ListSubscriptionsParams;
use polar::Page;
use polar::Pagination;
use polar::ProductParams;
use polar::SubscriptionParams;
use polar::UpdateProductParams;

#[test]
fn default_checkout_session_params_preset_nothing() {
    let p = CheckoutSessionParams::default();

    assert!(p.products.is_empty());
    assert!(p.metadata.is_empty());
    assert!(p.custom_field_data.is_empty());
    assert!(p.discount_id.is_none());
    assert!(!p.allow_discount_codes);
    assert!(!p.require_billing_address);
    assert!(p.amount.is_none());
    assert!(p.customer_id.is_none());
    assert!(!p.is_business_customer);
    assert!(p.customer_billing_address.is_none());
    assert!(p.subscription_id.is_none());
    assert!(p.success_url.is_none());
    assert!(p.embed_origin.is_none());
}

#[test]
fn default_subscription_params_change_nothing() {
    let p = SubscriptionParams::default();

    assert!(p.product_id.is_none());
    assert!(p.proration_behavior.is_none());
    assert!(p.discount_id.is_none());
    assert!(p.cancel_at_period_end.is_none());
    assert!(p.customer_cancellation_reason.is_none());
    assert!(p.customer_cancellation_comment.is_none());
    assert!(p.revoke.is_none());
}

#[test]
fn default_product_params_are_empty() {
    let p = ProductParams::default();

    assert_eq!(p.name, "");
    assert!(p.prices.is_empty());
    assert!(p.metadata.is_empty());
    assert!(p.attached_custom_fields.is_empty());
    assert!(p.organization_id.is_none());

    let u = UpdateProductParams::default();

    assert!(u.name.is_none());
    assert!(u.prices.is_empty());
    assert!(u.metadata.is_empty());
    assert!(u.attached_custom_fields.is_none());
}

#[test]
fn default_listing_params_filter_nothing() {
    let c = ListCheckoutSessionsParams::default();
    assert!(c.organization_id.is_none());
    assert!(c.status.is_none());
    assert!(c.page.is_none());
    assert!(c.limit.is_none());
    assert!(c.sorting.is_none());

    let m = ListMetersParams::default();
    assert!(m.query.is_none());
    assert!(m.metadata.is_none());

    let p = ListProductsParams::default();
    assert!(p.is_archived.is_none());
    assert!(p.benefit_id.is_none());

    let s = ListSubscriptionsParams::default();
    assert!(s.active.is_none());
    assert!(s.external_customer_id.is_none());
}

#[test]
fn page_carries_its_items_and_pagination() {
    let page = Page {
        items: vec![1u32, 2, 3],
        pagination: Pagination { total_count: 3, max_page: 1 },
    };

    assert_eq!(page.items.len(), 3);
    assert_eq!(page.pagination.total_count, 3);
    assert_eq!(page.pagination.max_page, 1);
}
