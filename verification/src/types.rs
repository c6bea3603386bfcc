//! Data model of the simulated connector: payment-method input, the outcome
//! of classifying a card number, the in-flight payment attempt, and the
//! persisted payment record.

use vstd::prelude::*;

verus! {

/// Status of a simulated payment.
#[derive(Clone, Copy, Debug, PartialEq, Eq, Structural)]
pub enum DummyConnectorStatus {
    Succeeded,
    Failed,
    Processing,
}

/// The action a caller must take next to move a payment forward.
pub enum DummyConnectorNextAction {
    RedirectToUrl(String),
}

/// The error taxonomy of the simulator.
#[derive(Clone, Copy, Debug)]
pub enum DummyConnectorErrors {
    /// The card number is not in the simulation table.
    CardNotSupported,
    /// Classification succeeded but simulates a decline; the reason is
    /// user-visible.
    PaymentDeclined { message: &'static str },
    /// A record or index lookup missed, or the stored value could not be
    /// decoded as the requested type.
    PaymentNotFound,
    /// A write to the store failed.
    PaymentStoringError,
    /// A store connection could not be obtained.
    InternalServerError,
}

/// Result alias used throughout the simulator.
pub type DummyConnectorResult<T> = Result<T, DummyConnectorErrors>;

/// The outcome of classifying a card number: either a flow with no
/// 3-D-Secure challenge, or one that requires a redirect-based step-up.
pub enum DummyConnectorCardFlow {
    NoThreeDS(DummyConnectorStatus, Option<DummyConnectorErrors>),
    ThreeDS(DummyConnectorStatus, Option<DummyConnectorErrors>),
}

/// Card details of a payment attempt. Only the number drives classification.
pub struct DummyConnectorCard {
    pub number: String,
}

/// Wallet details; carries nothing that the simulator reads.
pub struct DummyConnectorWallet {
}

/// Pay-later details; carries nothing that the simulator reads.
pub struct DummyConnectorPayLater {
}

/// Payment-method input, polymorphic over the three supported variants.
pub enum DummyConnectorPaymentMethodData {
    Card(DummyConnectorCard),
    Wallet(DummyConnectorWallet),
    PayLater(DummyConnectorPayLater),
}

/// Which kind of payment method a record was created from.
#[derive(Clone, Copy, Debug, PartialEq, Eq, Structural)]
pub enum DummyConnectorPaymentMethodType {
    Card,
    Wallet,
    PayLater,
}

/// The payment request carried by an attempt.
pub struct DummyConnectorPaymentRequest {
    pub amount: u64,
    pub currency: String,
    pub return_url: Option<String>,
    pub connector: String,
    pub payment_method_data: DummyConnectorPaymentMethodData,
}

/// One simulated checkout attempt, created by the request-handling layer
/// before the simulator is invoked.
pub struct DummyConnectorPaymentAttempt {
    pub attempt_id: String,
    pub payment_id: String,
    pub payment_request: DummyConnectorPaymentRequest,
}

/// The persisted payment record: the unit of truth the rest of the system
/// reads until it expires.
pub struct DummyConnectorPaymentData {
    pub payment_id: String,
    pub status: DummyConnectorStatus,
    pub next_action: Option<DummyConnectorNextAction>,
    pub amount: u64,
    pub currency: String,
    pub payment_method_type: DummyConnectorPaymentMethodType,
    pub connector: String,
    pub return_url: Option<String>,
}

impl DummyConnectorPaymentData {
    /// A record is well formed when its status is `Processing` exactly when a
    /// redirect next-action is present.
    pub open spec fn well_formed(self) -> bool {
        (self.status is Processing) <==> (self.next_action matches Some(
            DummyConnectorNextAction::RedirectToUrl(_),
        ))
    }
}

impl DummyConnectorPaymentMethodData {
    /// The method type a record derived from this input carries.
    pub open spec fn spec_method_type(self) -> DummyConnectorPaymentMethodType {
        match self {
            DummyConnectorPaymentMethodData::Card(_) => DummyConnectorPaymentMethodType::Card,
            DummyConnectorPaymentMethodData::Wallet(_) => DummyConnectorPaymentMethodType::Wallet,
            DummyConnectorPaymentMethodData::PayLater(
                _,
            ) => DummyConnectorPaymentMethodType::PayLater,
        }
    }

    /// Returns the method type of this input.
    pub fn method_type(&self) -> (r: DummyConnectorPaymentMethodType)
        ensures
            r == self.spec_method_type(),
    {
        match self {
            DummyConnectorPaymentMethodData::Card(_) => DummyConnectorPaymentMethodType::Card,
            DummyConnectorPaymentMethodData::Wallet(_) => DummyConnectorPaymentMethodType::Wallet,
            DummyConnectorPaymentMethodData::PayLater(
                _,
            ) => DummyConnectorPaymentMethodType::PayLater,
        }
    }
}

impl Clone for DummyConnectorCard {
    fn clone(&self) -> (r: Self)
        ensures
            r == *self,
    {
        DummyConnectorCard { number: self.number.clone() }
    }
}

impl Clone for DummyConnectorWallet {
    fn clone(&self) -> (r: Self)
        ensures
            r == *self,
    {
        DummyConnectorWallet {  }
    }
}

impl Clone for DummyConnectorPayLater {
    fn clone(&self) -> (r: Self)
        ensures
            r == *self,
    {
        DummyConnectorPayLater {  }
    }
}

impl Clone for DummyConnectorPaymentMethodData {
    fn clone(&self) -> (r: Self)
        ensures
            r == *self,
    {
        match self {
            DummyConnectorPaymentMethodData::Card(card) => DummyConnectorPaymentMethodData::Card(
                card.clone(),
            ),
            DummyConnectorPaymentMethodData::Wallet(
                wallet,
            ) => DummyConnectorPaymentMethodData::Wallet(wallet.clone()),
            DummyConnectorPaymentMethodData::PayLater(
                pay_later,
            ) => DummyConnectorPaymentMethodData::PayLater(pay_later.clone()),
        }
    }
}

impl Clone for DummyConnectorNextAction {
    fn clone(&self) -> (r: Self)
        ensures
            r == *self,
    {
        match self {
            DummyConnectorNextAction::RedirectToUrl(url) => DummyConnectorNextAction::RedirectToUrl(
                url.clone(),
            ),
        }
    }
}

/// Clones an optional string; the result equals the argument.
pub fn clone_opt_string(o: &Option<String>) -> (r: Option<String>)
    ensures
        r == *o,
{
    match o {
        Some(s) => Some(s.clone()),
        None => None,
    }
}

/// Clones an optional next-action; the result equals the argument.
pub fn clone_opt_next_action(o: &Option<DummyConnectorNextAction>) -> (r: Option<
    DummyConnectorNextAction,
>)
    ensures
        r == *o,
{
    match o {
        Some(a) => Some(a.clone()),
        None => None,
    }
}

impl Clone for DummyConnectorPaymentData {
    fn clone(&self) -> (r: Self)
        ensures
            r == *self,
    {
        DummyConnectorPaymentData {
            payment_id: self.payment_id.clone(),
            status: self.status,
            next_action: clone_opt_next_action(&self.next_action),
            amount: self.amount,
            currency: self.currency.clone(),
            payment_method_type: self.payment_method_type,
            connector: self.connector.clone(),
            return_url: clone_opt_string(&self.return_url),
        }
    }
}

impl DummyConnectorPaymentAttempt {
    /// The record this attempt yields for a given status and next-action; all
    /// other fields are taken from the attempt and its payment request.
    pub open spec fn spec_build_payment_data(
        self,
        status: DummyConnectorStatus,
        next_action: Option<DummyConnectorNextAction>,
    ) -> DummyConnectorPaymentData {
        DummyConnectorPaymentData {
            payment_id: self.payment_id,
            status: status,
            next_action: next_action,
            amount: self.payment_request.amount,
            currency: self.payment_request.currency,
            payment_method_type: self.payment_request.payment_method_data.spec_method_type(),
            connector: self.payment_request.connector,
            return_url: self.payment_request.return_url,
        }
    }

    /// Builds the payment record derived from this attempt with the given
    /// status and next-action; the record keeps the attempt's own payment id,
    /// amount, currency, connector and return URL.
    pub fn build_payment_data(
        self,
        status: DummyConnectorStatus,
        next_action: Option<DummyConnectorNextAction>,
    ) -> (r: DummyConnectorPaymentData)
        ensures
            r == self.spec_build_payment_data(status, next_action),
    {
        let payment_method_type = self.payment_request.payment_method_data.method_type();
        DummyConnectorPaymentData {
            payment_id: self.payment_id,
            status: status,
            next_action: next_action,
            amount: self.payment_request.amount,
            currency: self.payment_request.currency,
            payment_method_type: payment_method_type,
            connector: self.payment_request.connector,
            return_url: self.payment_request.return_url,
        }
    }
}

} // verus!
