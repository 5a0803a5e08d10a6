//! A payment intent as it is published to the event stream.

use vstd::prelude::*;
use vstd::string::*;
use serde_json::Value;

verus! {

/// `serde_json::Map`, the members of a JSON object. The library knows
/// nothing of what it holds.
#[verifier::external_type_specification]
#[verifier::external_body]
#[verifier::reject_recursive_types(K)]
#[verifier::reject_recursive_types(V)]
pub struct ExJsonMap<K, V>(serde_json::Map<K, V>);

/// `serde_json::Value::as_object`, which gives the members of a value that is
/// an object. Nothing is claimed of what it returns.
pub assume_specification[ Value::as_object ](value: &Value) -> (members: Option<
    &serde_json::Map<String, Value>,
>)
;

/// `serde_json::Map::get`, which gives the member with the given name, if
/// there is one. Nothing is claimed of what it returns.
pub assume_specification<'a, Q>[ serde_json::Map::<String, Value>::get::<Q> ](
    members: &'a serde_json::Map<String, Value>,
    key: &Q,
) -> (member: Option<&'a Value>) where
    String: core::borrow::Borrow<Q>,
    Q: ?Sized + Ord + Eq + core::hash::Hash,
;

/// `serde_json::Value::as_str`, which gives the text of a value that is a
/// string. Nothing is claimed of what it returns.
pub assume_specification[ Value::as_str ](value: &Value) -> (text: Option<&str>)
;

/// A payment intent as it is stored. Instants are in seconds since the Unix
/// epoch, in UTC.
#[derive(Debug)]
pub struct PaymentIntent {
    pub payment_id: String,
    pub merchant_id: String,
    pub status: String,
    /// The amount, in the minor unit of the currency.
    pub amount: i64,
    pub currency: Option<String>,
    pub amount_captured: Option<i64>,
    pub customer_id: Option<String>,
    pub description: Option<String>,
    pub return_url: Option<String>,
    pub metadata: Option<Value>,
    pub connector_id: Option<String>,
    pub statement_descriptor_name: Option<String>,
    pub statement_descriptor_suffix: Option<String>,
    pub created_at: i64,
    pub modified_at: i64,
    pub last_synced: Option<i64>,
    pub setup_future_usage: Option<String>,
    pub off_session: Option<bool>,
    pub client_secret: Option<String>,
    pub active_attempt_id: String,
    pub business_country: Option<String>,
    pub business_label: Option<String>,
    pub attempt_count: i16,
    pub profile_id: Option<String>,
    pub payment_confirm_source: Option<String>,
    pub customer_details: Option<Value>,
    pub feature_metadata: Option<Value>,
    pub merchant_order_reference_id: Option<String>,
    pub organization_id: String,
}

/// A payment intent as it is published. It borrows from the stored intent
/// what it can.
#[derive(Debug)]
pub struct KafkaPaymentIntent<'a> {
    pub payment_id: &'a String,
    pub merchant_id: &'a String,
    pub status: &'a String,
    pub amount: i64,
    pub currency: Option<&'a String>,
    pub amount_captured: Option<i64>,
    pub customer_id: Option<&'a String>,
    pub description: Option<&'a String>,
    pub return_url: Option<&'a String>,
    /// The metadata of the intent, written as JSON.
    pub metadata: Option<String>,
    pub connector_id: Option<&'a String>,
    pub statement_descriptor_name: Option<&'a String>,
    pub statement_descriptor_suffix: Option<&'a String>,
    pub created_at: i64,
    pub modified_at: i64,
    pub last_synced: Option<i64>,
    pub setup_future_usage: Option<&'a String>,
    pub off_session: Option<bool>,
    pub client_secret: Option<&'a String>,
    pub active_attempt_id: String,
    pub business_country: Option<&'a String>,
    pub business_label: Option<&'a String>,
    pub attempt_count: i16,
    pub profile_id: Option<&'a String>,
    pub payment_confirm_source: Option<&'a String>,
    /// Not published.
    pub billing_details: Option<Value>,
    /// Not published.
    pub shipping_details: Option<Value>,
    /// The address of the customer, where the details of the customer are an
    /// object with a text under `email`.
    pub customer_email: Option<String>,
    pub feature_metadata: Option<&'a Value>,
    pub merchant_order_reference_id: Option<&'a String>,
    pub organization_id: &'a String,
    /// The values of the infrastructure that the intent is published from.
    pub infra_values: Option<Value>,
}

/// A value that may be absent, borrowed.
pub open spec fn borrowed<T>(value: &Option<T>) -> Option<&T> {
    match value {
        Some(v) => Some(v),
        None => None,
    }
}

/// The text under `email` in the details of a customer, where the details are
/// an object and hold a text there. Without details there is no address. With
/// details, `serde_json` decides: it is asked for the members of the details,
/// for the member named `email`, and for the text of that member, and
/// [`email_from_text`] makes the address of what it answers.
pub fn email_of(customer_details: &Option<Value>) -> (email: Option<String>)
    ensures
        customer_details is None ==> email is None,
{
    match customer_details {
        Some(details) => match details.as_object() {
            Some(members) => match members.get("email") {
                Some(member) => email_from_text(member.as_str()),
                None => None,
            },
            None => None,
        },
        None => None,
    }
}

/// The address of a customer, given the text of the member named `email` of
/// the customer's details: that text, as a text of its own; no address where
/// the member holds no text.
pub fn email_from_text(text: Option<&str>) -> (email: Option<String>)
    ensures
        email.deep_view() == match text {
            Some(t) => Some(t@),
            None => None,
        },
{
    match text {
        Some(t) => Some(String::from_str(t)),
        None => None,
    }
}

impl<'a> KafkaPaymentIntent<'a> {
    /// Whether the published intent holds what the stored intent holds, field
    /// by field, with nothing for the billing and the shipping details.
    pub open spec fn mirrors(self, intent: &PaymentIntent) -> bool {
        &&& *self.payment_id == intent.payment_id
        &&& *self.merchant_id == intent.merchant_id
        &&& *self.status == intent.status
        &&& self.amount == intent.amount
        &&& self.currency == borrowed(&intent.currency)
        &&& self.amount_captured == intent.amount_captured
        &&& self.customer_id == borrowed(&intent.customer_id)
        &&& self.description == borrowed(&intent.description)
        &&& self.return_url == borrowed(&intent.return_url)
        &&& self.connector_id == borrowed(&intent.connector_id)
        &&& self.statement_descriptor_name == borrowed(&intent.statement_descriptor_name)
        &&& self.statement_descriptor_suffix == borrowed(&intent.statement_descriptor_suffix)
        &&& self.created_at == intent.created_at
        &&& self.modified_at == intent.modified_at
        &&& self.last_synced == intent.last_synced
        &&& self.setup_future_usage == borrowed(&intent.setup_future_usage)
        &&& self.off_session == intent.off_session
        &&& self.client_secret == borrowed(&intent.client_secret)
        &&& self.active_attempt_id@ == intent.active_attempt_id@
        &&& self.business_country == borrowed(&intent.business_country)
        &&& self.business_label == borrowed(&intent.business_label)
        &&& self.attempt_count == intent.attempt_count
        &&& self.profile_id == borrowed(&intent.profile_id)
        &&& self.payment_confirm_source == borrowed(&intent.payment_confirm_source)
        &&& self.billing_details is None
        &&& self.shipping_details is None
        &&& self.feature_metadata == borrowed(&intent.feature_metadata)
        &&& self.merchant_order_reference_id == borrowed(&intent.merchant_order_reference_id)
        &&& *self.organization_id == intent.organization_id
    }

    /// The intent as it is published, with the values of the infrastructure
    /// it runs on. The metadata is written as JSON; the address of the
    /// customer is taken from the details of the customer.
    pub fn from_storage(intent: &'a PaymentIntent, infra_values: Option<Value>) -> (published: Self)
        ensures
            published.mirrors(intent),
            published.infra_values == infra_values,
            match intent.metadata {
                Some(metadata) => published.metadata matches Some(written)
                    && to_string_from_display_ensures::<Value>(&metadata, written),
                None => published.metadata is None,
            },
            intent.customer_details is None ==> published.customer_email is None,
    {
        Self {
            payment_id: &intent.payment_id,
            merchant_id: &intent.merchant_id,
            status: &intent.status,
            amount: intent.amount,
            currency: intent.currency.as_ref(),
            amount_captured: intent.amount_captured,
            customer_id: intent.customer_id.as_ref(),
            description: intent.description.as_ref(),
            return_url: intent.return_url.as_ref(),
            metadata: match &intent.metadata {
                Some(metadata) => Some(metadata.to_string()),
                None => None,
            },
            connector_id: intent.connector_id.as_ref(),
            statement_descriptor_name: intent.statement_descriptor_name.as_ref(),
            statement_descriptor_suffix: intent.statement_descriptor_suffix.as_ref(),
            created_at: intent.created_at,
            modified_at: intent.modified_at,
            last_synced: intent.last_synced,
            setup_future_usage: intent.setup_future_usage.as_ref(),
            off_session: intent.off_session,
            client_secret: intent.client_secret.as_ref(),
            active_attempt_id: intent.active_attempt_id.clone(),
            business_country: intent.business_country.as_ref(),
            business_label: intent.business_label.as_ref(),
            attempt_count: intent.attempt_count,
            profile_id: intent.profile_id.as_ref(),
            payment_confirm_source: intent.payment_confirm_source.as_ref(),
            billing_details: None,
            shipping_details: None,
            customer_email: email_of(&intent.customer_details),
            feature_metadata: intent.feature_metadata.as_ref(),
            merchant_order_reference_id: intent.merchant_order_reference_id.as_ref(),
            organization_id: &intent.organization_id,
            infra_values,
        }
    }

    /// The id of the payment.
    pub fn get_id(&self) -> (id: &String)
        ensures
            id == self.payment_id,
    {
        self.payment_id
    }

    /// The key under which the intent is published: the id of the merchant,
    /// an underscore, and the id of the payment.
    pub fn key(&self) -> (key: String)
        ensures
            key@ == self.merchant_id@ + "_"@ + self.payment_id@,
    {
        let mut key = self.merchant_id.clone();
        key.append("_");
        key.append(self.get_id().as_str());
        key
    }
}

} // verus!
