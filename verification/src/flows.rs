//! Classification of card numbers into simulated outcomes, and the
//! attempt-to-record transition that turns a classified attempt into a
//! persisted payment record (staging a redirect for step-up flows).

use vstd::prelude::*;
use vstd::string::StringExecFns;
use crate::strings::str_equal;
use crate::types::{
    DummyConnectorCard, DummyConnectorCardFlow, DummyConnectorErrors, DummyConnectorNextAction,
    DummyConnectorPayLater, DummyConnectorPaymentAttempt, DummyConnectorPaymentData,
    DummyConnectorPaymentMethodData, DummyConnectorResult,
    DummyConnectorStatus, DummyConnectorWallet,
};

verus! {

/// The fixed simulation table: which outcome each test card number maps to.
/// Card numbers match by exact string equality; anything outside the table is
/// not supported.
pub open spec fn spec_classify(n: Seq<char>) -> Result<
    DummyConnectorCardFlow,
    DummyConnectorErrors,
> {
    if n == "4111111111111111"@ || n == "4242424242424242"@ || n == "5555555555554444"@ || n
        == "38000000000006"@ || n == "378282246310005"@ || n == "6011111111111117"@ {
        Ok(
            DummyConnectorCardFlow::NoThreeDS(DummyConnectorStatus::Succeeded, None),
        )
    } else if n == "5105105105105100"@ || n == "4000000000000002"@ {
        Ok(
            DummyConnectorCardFlow::NoThreeDS(
                DummyConnectorStatus::Failed,
                Some(DummyConnectorErrors::PaymentDeclined { message: "Card declined" }),
            ),
        )
    } else if n == "4000000000009995"@ {
        Ok(
            DummyConnectorCardFlow::NoThreeDS(
                DummyConnectorStatus::Failed,
                Some(DummyConnectorErrors::PaymentDeclined { message: "Insufficient funds" }),
            ),
        )
    } else if n == "4000000000009987"@ {
        Ok(
            DummyConnectorCardFlow::NoThreeDS(
                DummyConnectorStatus::Failed,
                Some(DummyConnectorErrors::PaymentDeclined { message: "Lost card" }),
            ),
        )
    } else if n == "4000000000009979"@ {
        Ok(
            DummyConnectorCardFlow::NoThreeDS(
                DummyConnectorStatus::Failed,
                Some(DummyConnectorErrors::PaymentDeclined { message: "Stolen card" }),
            ),
        )
    } else if n == "4000003800000446"@ {
        Ok(DummyConnectorCardFlow::ThreeDS(DummyConnectorStatus::Succeeded, None))
    } else {
        Err(DummyConnectorErrors::CardNotSupported)
    }
}

impl DummyConnectorCard {
    /// Classifies this card's number against the simulation table.
    pub fn get_flow_from_card_number(self) -> (r: DummyConnectorResult<DummyConnectorCardFlow>)
        ensures
            r == spec_classify(self.number@),
    {
        let card_number = self.number.as_str();
        if str_equal(card_number, "4111111111111111") || str_equal(card_number, "4242424242424242")
            || str_equal(card_number, "5555555555554444") || str_equal(
            card_number,
            "38000000000006",
        ) || str_equal(card_number, "378282246310005") || str_equal(
            card_number,
            "6011111111111117",
        ) {
            Ok(DummyConnectorCardFlow::NoThreeDS(DummyConnectorStatus::Succeeded, None))
        } else if str_equal(card_number, "5105105105105100") || str_equal(
            card_number,
            "4000000000000002",
        ) {
            Ok(
                DummyConnectorCardFlow::NoThreeDS(
                    DummyConnectorStatus::Failed,
                    Some(DummyConnectorErrors::PaymentDeclined { message: "Card declined" }),
                ),
            )
        } else if str_equal(card_number, "4000000000009995") {
            Ok(
                DummyConnectorCardFlow::NoThreeDS(
                    DummyConnectorStatus::Failed,
                    Some(DummyConnectorErrors::PaymentDeclined { message: "Insufficient funds" }),
                ),
            )
        } else if str_equal(card_number, "4000000000009987") {
            Ok(
                DummyConnectorCardFlow::NoThreeDS(
                    DummyConnectorStatus::Failed,
                    Some(DummyConnectorErrors::PaymentDeclined { message: "Lost card" }),
                ),
            )
        } else if str_equal(card_number, "4000000000009979") {
            Ok(
                DummyConnectorCardFlow::NoThreeDS(
                    DummyConnectorStatus::Failed,
                    Some(DummyConnectorErrors::PaymentDeclined { message: "Stolen card" }),
                ),
            )
        } else if str_equal(card_number, "4000003800000446") {
            Ok(DummyConnectorCardFlow::ThreeDS(DummyConnectorStatus::Succeeded, None))
        } else {
            Err(DummyConnectorErrors::CardNotSupported)
        }
    }
}

/// Turns one payment-method input plus an in-flight attempt into a payment
/// record, or a domain error when the simulated processor rejects the charge.
pub trait ProcessPaymentAttempt: Sized {
    /// What building a record from this input yields, as a function of the
    /// attempt and the redirect URL supplied by the caller.
    spec fn spec_build(
        self,
        payment_attempt: DummyConnectorPaymentAttempt,
        redirect_url: String,
    ) -> DummyConnectorResult<DummyConnectorPaymentData>;

    /// Builds the payment record for this input.
    fn build_payment_data_from_payment_attempt(
        self,
        payment_attempt: DummyConnectorPaymentAttempt,
        redirect_url: String,
    ) -> (r: DummyConnectorResult<DummyConnectorPaymentData>)
        ensures
            r == self.spec_build(payment_attempt, redirect_url),
    ;
}

impl ProcessPaymentAttempt for DummyConnectorCard {
    open spec fn spec_build(
        self,
        payment_attempt: DummyConnectorPaymentAttempt,
        redirect_url: String,
    ) -> DummyConnectorResult<DummyConnectorPaymentData> {
        match spec_classify(self.number@) {
            Ok(DummyConnectorCardFlow::NoThreeDS(status, error)) => match error {
                Some(e) => Err(e),
                None => Ok(payment_attempt.spec_build_payment_data(status, None)),
            },
            Ok(DummyConnectorCardFlow::ThreeDS(_, _)) => Ok(
                payment_attempt.spec_build_payment_data(
                    DummyConnectorStatus::Processing,
                    Some(DummyConnectorNextAction::RedirectToUrl(redirect_url)),
                ),
            ),
            Err(e) => Err(e),
        }
    }

    fn build_payment_data_from_payment_attempt(
        self,
        payment_attempt: DummyConnectorPaymentAttempt,
        redirect_url: String,
    ) -> (r: DummyConnectorResult<DummyConnectorPaymentData>) {
        match self.get_flow_from_card_number() {
            Ok(DummyConnectorCardFlow::NoThreeDS(status, error)) => match error {
                Some(e) => Err(e),
                None => Ok(payment_attempt.build_payment_data(status, None)),
            },
            Ok(DummyConnectorCardFlow::ThreeDS(_, _)) => Ok(
                payment_attempt.build_payment_data(
                    DummyConnectorStatus::Processing,
                    Some(DummyConnectorNextAction::RedirectToUrl(redirect_url)),
                ),
            ),
            Err(e) => Err(e),
        }
    }
}

impl ProcessPaymentAttempt for DummyConnectorWallet {
    open spec fn spec_build(
        self,
        payment_attempt: DummyConnectorPaymentAttempt,
        redirect_url: String,
    ) -> DummyConnectorResult<DummyConnectorPaymentData> {
        Ok(
            payment_attempt.spec_build_payment_data(
                DummyConnectorStatus::Processing,
                Some(DummyConnectorNextAction::RedirectToUrl(redirect_url)),
            ),
        )
    }

    fn build_payment_data_from_payment_attempt(
        self,
        payment_attempt: DummyConnectorPaymentAttempt,
        redirect_url: String,
    ) -> (r: DummyConnectorResult<DummyConnectorPaymentData>) {
        Ok(
            payment_attempt.build_payment_data(
                DummyConnectorStatus::Processing,
                Some(DummyConnectorNextAction::RedirectToUrl(redirect_url)),
            ),
        )
    }
}

impl ProcessPaymentAttempt for DummyConnectorPayLater {
    open spec fn spec_build(
        self,
        payment_attempt: DummyConnectorPaymentAttempt,
        redirect_url: String,
    ) -> DummyConnectorResult<DummyConnectorPaymentData> {
        Ok(
            payment_attempt.spec_build_payment_data(
                DummyConnectorStatus::Processing,
                Some(DummyConnectorNextAction::RedirectToUrl(redirect_url)),
            ),
        )
    }

    fn build_payment_data_from_payment_attempt(
        self,
        payment_attempt: DummyConnectorPaymentAttempt,
        redirect_url: String,
    ) -> (r: DummyConnectorResult<DummyConnectorPaymentData>) {
        Ok(
            payment_attempt.build_payment_data(
                DummyConnectorStatus::Processing,
                Some(DummyConnectorNextAction::RedirectToUrl(redirect_url)),
            ),
        )
    }
}

impl ProcessPaymentAttempt for DummyConnectorPaymentMethodData {
    open spec fn spec_build(
        self,
        payment_attempt: DummyConnectorPaymentAttempt,
        redirect_url: String,
    ) -> DummyConnectorResult<DummyConnectorPaymentData> {
        match self {
            DummyConnectorPaymentMethodData::Card(card) => card.spec_build(
                payment_attempt,
                redirect_url,
            ),
            DummyConnectorPaymentMethodData::Wallet(wallet) => wallet.spec_build(
                payment_attempt,
                redirect_url,
            ),
            DummyConnectorPaymentMethodData::PayLater(pay_later) => pay_later.spec_build(
                payment_attempt,
                redirect_url,
            ),
        }
    }

    fn build_payment_data_from_payment_attempt(
        self,
        payment_attempt: DummyConnectorPaymentAttempt,
        redirect_url: String,
    ) -> (r: DummyConnectorResult<DummyConnectorPaymentData>) {
        match self {
            DummyConnectorPaymentMethodData::Card(
                card,
            ) => card.build_payment_data_from_payment_attempt(payment_attempt, redirect_url),
            DummyConnectorPaymentMethodData::Wallet(
                wallet,
            ) => wallet.build_payment_data_from_payment_attempt(payment_attempt, redirect_url),
            DummyConnectorPaymentMethodData::PayLater(
                pay_later,
            ) => pay_later.build_payment_data_from_payment_attempt(payment_attempt, redirect_url),
        }
    }
}

/// The redirect URL the simulator stages for step-up flows: the configured
/// base URL followed by the authorize path and the attempt id.
pub open spec fn spec_redirect_url(base_url: Seq<char>, attempt_id: Seq<char>) -> Seq<char> {
    base_url + "/dummy-connector/authorize/"@ + attempt_id
}

/// Holds when a record is the staged-redirect record for this attempt: status
/// `Processing`, a redirect to the given URL, and all other fields taken from
/// the attempt.
pub open spec fn is_redirect_record(
    d: DummyConnectorPaymentData,
    payment_attempt: DummyConnectorPaymentAttempt,
    url: Seq<char>,
) -> bool {
    &&& d.payment_id == payment_attempt.payment_id
    &&& d.status is Processing
    &&& d.next_action matches Some(DummyConnectorNextAction::RedirectToUrl(u)) && u@ == url
    &&& d.amount == payment_attempt.payment_request.amount
    &&& d.currency == payment_attempt.payment_request.currency
    &&& d.payment_method_type
        == payment_attempt.payment_request.payment_method_data.spec_method_type()
    &&& d.connector == payment_attempt.payment_request.connector
    &&& d.return_url == payment_attempt.payment_request.return_url
}

/// A classification that fails the payment always carries a decline reason:
/// whenever the table yields status `Failed`, the accompanying error is
/// `PaymentDeclined` with its message.
pub proof fn lemma_decline_has_reason(n: Seq<char>)
    ensures
        match spec_classify(n) {
            Ok(DummyConnectorCardFlow::NoThreeDS(status, reason)) => status is Failed
                ==> reason matches Some(DummyConnectorErrors::PaymentDeclined { .. }),
            Ok(DummyConnectorCardFlow::ThreeDS(status, _)) => !(status is Failed),
            Err(_) => true,
        },
{
}

/// A card whose number classifies as a decline never yields a record: building
/// from it fails with the `PaymentDeclined` error that classification carries.
pub proof fn lemma_declined_card_fails(
    card: DummyConnectorCard,
    payment_attempt: DummyConnectorPaymentAttempt,
    redirect_url: String,
    status: DummyConnectorStatus,
    e: DummyConnectorErrors,
)
    requires
        spec_classify(card.number@) == Ok::<_, DummyConnectorErrors>(
            DummyConnectorCardFlow::NoThreeDS(status, Some(e)),
        ),
    ensures
        card.spec_build(payment_attempt, redirect_url) == Err::<DummyConnectorPaymentData, _>(e),
        e matches DummyConnectorErrors::PaymentDeclined { .. },
{
    lemma_decline_has_reason(card.number@);
}

/// A card that classifies as 3-D-Secure, and any wallet or pay-later input,
/// yields a record with status `Processing` whose next-action redirects to
/// the supplied URL.
pub proof fn lemma_step_up_yields_redirect(
    payment_method_data: DummyConnectorPaymentMethodData,
    payment_attempt: DummyConnectorPaymentAttempt,
    redirect_url: String,
)
    requires
        payment_attempt.payment_request.payment_method_data == payment_method_data,
        match payment_method_data {
            DummyConnectorPaymentMethodData::Card(card) => spec_classify(
                card.number@,
            ) matches Ok(DummyConnectorCardFlow::ThreeDS(_, _)),
            _ => true,
        },
    ensures
        payment_method_data.spec_build(payment_attempt, redirect_url) matches Ok(d)
            && is_redirect_record(d, payment_attempt, redirect_url@),
{
}

/// Every record the transition engine produces is well formed: its status is
/// `Processing` exactly when a redirect next-action is present.
pub proof fn lemma_built_record_well_formed(
    payment_method_data: DummyConnectorPaymentMethodData,
    payment_attempt: DummyConnectorPaymentAttempt,
    redirect_url: String,
)
    ensures
        payment_method_data.spec_build(payment_attempt, redirect_url) matches Ok(d)
            ==> d.well_formed(),
{
}

impl DummyConnectorPaymentData {
    /// Processes one payment attempt: classifies its payment method, builds
    /// the resulting record, and stages a redirect to
    /// `{base_url}/dummy-connector/authorize/{attempt_id}` for 3-D-Secure,
    /// wallet and pay-later flows.
    pub fn process_payment_attempt(
        base_url: &str,
        payment_attempt: DummyConnectorPaymentAttempt,
    ) -> (r: DummyConnectorResult<Self>)
        ensures
            ({
                let url = spec_redirect_url(base_url@, payment_attempt.attempt_id@);
                match payment_attempt.payment_request.payment_method_data {
                    DummyConnectorPaymentMethodData::Card(card) => match spec_classify(
                        card.number@,
                    ) {
                        Ok(DummyConnectorCardFlow::NoThreeDS(status, error)) => match error {
                            Some(e) => r == Err::<Self, _>(e),
                            None => r == Ok::<Self, DummyConnectorErrors>(
                                payment_attempt.spec_build_payment_data(status, None),
                            ),
                        },
                        Ok(DummyConnectorCardFlow::ThreeDS(_, _)) => r matches Ok(d)
                            && is_redirect_record(d, payment_attempt, url),
                        Err(e) => r == Err::<Self, _>(e),
                    },
                    _ => r matches Ok(d) && is_redirect_record(d, payment_attempt, url),
                }
            }),
    {
        let mut redirect_url = base_url.to_owned();
        redirect_url.append("/dummy-connector/authorize/");
        redirect_url.append(payment_attempt.attempt_id.as_str());
        let payment_method_data = payment_attempt.payment_request.payment_method_data.clone();
        payment_method_data.build_payment_data_from_payment_attempt(payment_attempt, redirect_url)
    }
}

} // verus!
