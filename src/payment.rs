use vstd::prelude::*;

use crate::auth::{authorize_owner, token_outcome, AuthenticatedUser, Claims};
use crate::error::ApiError;
use crate::ids::{fresh_id, Id};
use crate::order::Order;
use crate::text::text_eq;

verus! {

/// Where a payment stands. Payments start out pending.
#[derive(Clone, Copy, Debug, PartialEq, Eq, Structural)]
pub enum PaymentStatus {
    Pending,
    Paid,
}

/// The payment record of an order.
#[derive(Clone, Debug, PartialEq, Eq)]
pub struct Payment {
    pub id: Id,
    pub order_id: Id,
    pub payment_method: String,
    pub status: PaymentStatus,
}

/// The body of a request that opens a payment for an order.
#[derive(Clone, Debug, PartialEq, Eq)]
pub struct CreatePaymentRequest {
    pub payment_method: String,
}

/// The body of a request that sets the method of a payment.
#[derive(Clone, Debug, PartialEq, Eq)]
pub struct UpdatePaymentRequest {
    pub payment_method: String,
}

impl PaymentStatus {
    pub open spec fn spec_name(self) -> Seq<char> {
        match self {
            PaymentStatus::Pending => seq!['p', 'e', 'n', 'd', 'i', 'n', 'g'],
            PaymentStatus::Paid => seq!['p', 'a', 'i', 'd'],
        }
    }

    /// The name under which the status is stored and shown.
    pub fn name(&self) -> (r: &'static str)
        ensures
            r@ == self.spec_name(),
    {
        proof {
            reveal_strlit("pending");
            reveal_strlit("paid");
        }
        match self {
            PaymentStatus::Pending => "pending",
            PaymentStatus::Paid => "paid",
        }
    }

    /// Reads a stored status name back.
    pub fn from_name(s: &str) -> (r: Option<PaymentStatus>)
        ensures
            r is Some <==> (s@ == PaymentStatus::Pending.spec_name() || s@ == PaymentStatus::Paid.spec_name()),
            r is Some ==> r->Some_0.spec_name() == s@,
    {
        if text_eq(s, PaymentStatus::Pending.name()) {
            Some(PaymentStatus::Pending)
        } else if text_eq(s, PaymentStatus::Paid.name()) {
            Some(PaymentStatus::Paid)
        } else {
            None
        }
    }
}

impl Payment {
    /// A new pending payment for order `order_id`, with a fresh identifier.
    pub fn create_payment(order_id: Id, payment_method: &str) -> (r: Payment)
        ensures
            r.order_id == order_id,
            r.payment_method@ == payment_method@,
            r.status == PaymentStatus::Pending,
    {
        Payment {
            id: fresh_id(),
            order_id,
            payment_method: payment_method.to_owned(),
            status: PaymentStatus::Pending,
        }
    }

    /// Whether `user_id` owns `order` and this payment belongs to that order.
    pub fn verify_payment_owner(&self, order: &Order, user_id: Id) -> (r: bool)
        ensures
            r == (self.order_id == order.id && order.user_id == user_id),
    {
        self.order_id == order.id && order.user_id == user_id
    }

    /// Marks the payment as settled; only `confirm_payment` does so.
    pub fn update_payment_status(&mut self)
        ensures
            *final(self) == (Payment { status: PaymentStatus::Paid, ..*old(self) }),
    {
        self.status = PaymentStatus::Paid;
    }

    /// Replaces the payment method.
    pub fn update_payment_method(&mut self, new_payment_method: &str)
        ensures
            final(self).id == old(self).id,
            final(self).order_id == old(self).order_id,
            final(self).status == old(self).status,
            final(self).payment_method@ == new_payment_method@,
    {
        self.payment_method = new_payment_method.to_owned();
    }
}

/// Whether `order` is the stored order `order_id`.
pub open spec fn known_order(order: Option<Order>, order_id: Id) -> bool {
    order is Some && order->Some_0.id == order_id
}

/// Whether `order` is the order `order_id` and is owned by `user`.
pub open spec fn owns_order(user: Id, order: Option<Order>, order_id: Id) -> bool {
    known_order(order, order_id) && order->Some_0.user_id == user
}

/// Whether a request authenticated as `auth` may act on order `order_id`,
/// whose stored row is `order`: a refused token is refused first, then an
/// unknown order is not found, then only the owner may act.
pub open spec fn access_outcome(auth: Result<AuthenticatedUser, ApiError>, order: Option<Order>, order_id: Id) -> Result<
    (),
    ApiError,
> {
    match auth {
        Err(e) => Err(e),
        Ok(a) => if !known_order(order, order_id) {
            Err(ApiError::NotFound)
        } else if owns_order(a.0.sub, order, order_id) {
            Ok(())
        } else {
            Err(ApiError::Forbidden)
        },
    }
}

/// An expired token reaches no order or payment: the request is refused as
/// unauthorized, whatever order it names.
pub proof fn lemma_expired_token_is_refused(claims: Claims, now: i64, order: Option<Order>, order_id: Id)
    requires
        claims.spec_expired(now),
    ensures
        access_outcome(token_outcome(Some(claims), now), order, order_id) == Err::<(), ApiError>(
            ApiError::Unauthorized,
        ),
{
}

/// Decides whether a request authenticated as `auth` may act on order
/// `order_id`, whose stored row is `order`.
pub fn order_access(auth: Result<AuthenticatedUser, ApiError>, order: Option<Order>, order_id: Id) -> (r: Result<
    (),
    ApiError,
>)
    ensures
        r == access_outcome(auth, order, order_id),
{
    match auth {
        Err(e) => Err(e),
        Ok(a) => match order {
            Some(o) if o.id == order_id => authorize_owner(a.user_id(), Some(o.user_id)),
            _ => Err(ApiError::NotFound),
        },
    }
}

/// Opens a payment for order `order_id`. `order` is the stored order of that
/// id, if any; `existing` its payment, if any. Only the owner may do so, and
/// an order has at most one payment.
pub fn create_payment(
    auth: Result<AuthenticatedUser, ApiError>,
    order: Option<Order>,
    order_id: Id,
    existing: Option<&Payment>,
    body: &CreatePaymentRequest,
) -> (r: Result<Payment, ApiError>)
    ensures
        access_outcome(auth, order, order_id) is Err ==> r == Err::<Payment, ApiError>(
            access_outcome(auth, order, order_id)->Err_0,
        ),
        access_outcome(auth, order, order_id) is Ok && existing is Some ==> r == Err::<Payment, ApiError>(
            ApiError::Conflict,
        ),
        r is Ok <==> access_outcome(auth, order, order_id) is Ok && existing is None,
        r is Ok ==> {
            let p = r->Ok_0;
            &&& p.order_id == order_id
            &&& p.payment_method@ == body.payment_method@
            &&& p.status == PaymentStatus::Pending
        },
{
    match order_access(auth, order, order_id) {
        Err(e) => Err(e),
        Ok(()) => {
            if existing.is_some() {
                Err(ApiError::Conflict)
            } else {
                Ok(Payment::create_payment(order_id, body.payment_method.as_str()))
            }
        },
    }
}

/// The payment of order `order_id`. `order` is the stored order of that id,
/// if any; `payment` its payment, if any.
pub fn get_payment(
    auth: Result<AuthenticatedUser, ApiError>,
    order: Option<Order>,
    order_id: Id,
    payment: Option<Payment>,
) -> (r: Result<Payment, ApiError>)
    ensures
        access_outcome(auth, order, order_id) is Err ==> r == Err::<Payment, ApiError>(
            access_outcome(auth, order, order_id)->Err_0,
        ),
        access_outcome(auth, order, order_id) is Ok ==> match payment {
            Some(p) if p.order_id == order_id => r == Ok::<Payment, ApiError>(p),
            _ => r == Err::<Payment, ApiError>(ApiError::NotFound),
        },
{
    match order_access(auth, order, order_id) {
        Err(e) => Err(e),
        Ok(()) => match payment {
            Some(p) if p.order_id == order_id => Ok(p),
            _ => Err(ApiError::NotFound),
        },
    }
}

/// The error that refuses a request on a stored `payment` (if any) of the
/// order `order`, or `None` when the request may go on.
pub open spec fn payment_refusal(
    auth: Result<AuthenticatedUser, ApiError>,
    payment: Option<Payment>,
    order: Option<Order>,
) -> Option<ApiError> {
    match payment {
        None => Some(
            match auth {
                Err(e) => e,
                Ok(_) => ApiError::NotFound,
            },
        ),
        Some(p) => match access_outcome(auth, order, p.order_id) {
            Err(e) => Some(e),
            Ok(_) => None,
        },
    }
}

/// Sets the method of `payment`; the payment stays as settled or unsettled
/// as it was. `order` is the stored order the payment points to, if any.
/// Only the owner of that order may do so.
pub fn update_payment(
    auth: Result<AuthenticatedUser, ApiError>,
    payment: Option<Payment>,
    order: Option<Order>,
    body: &UpdatePaymentRequest,
) -> (r: Result<Payment, ApiError>)
    ensures
        payment_refusal(auth, payment, order) is Some ==> r == Err::<Payment, ApiError>(
            payment_refusal(auth, payment, order)->Some_0,
        ),
        r is Ok <==> payment_refusal(auth, payment, order) is None,
        r is Ok ==> {
            let (old_p, new_p) = (payment->Some_0, r->Ok_0);
            &&& new_p.id == old_p.id
            &&& new_p.order_id == old_p.order_id
            &&& new_p.payment_method@ == body.payment_method@
            &&& new_p.status == old_p.status
        },
{
    match payment {
        None => match auth {
            Err(e) => Err(e),
            Ok(_) => Err(ApiError::NotFound),
        },
        Some(mut p) => match order_access(auth, order, p.order_id) {
            Err(e) => Err(e),
            Ok(()) => {
                p.update_payment_method(body.payment_method.as_str());
                Ok(p)
            },
        },
    }
}

/// Confirms that `payment` has been settled: a pending payment becomes paid,
/// and a payment that is paid already is a conflict. `order` is the stored
/// order the payment points to, if any. Only the owner of that order may do
/// so.
pub fn confirm_payment(
    auth: Result<AuthenticatedUser, ApiError>,
    payment: Option<Payment>,
    order: Option<Order>,
) -> (r: Result<Payment, ApiError>)
    ensures
        payment_refusal(auth, payment, order) is Some ==> r == Err::<Payment, ApiError>(
            payment_refusal(auth, payment, order)->Some_0,
        ),
        payment_refusal(auth, payment, order) is None && payment->Some_0.status == PaymentStatus::Paid
            ==> r == Err::<Payment, ApiError>(ApiError::Conflict),
        r is Ok <==> payment_refusal(auth, payment, order) is None && payment->Some_0.status
            == PaymentStatus::Pending,
        r is Ok ==> r->Ok_0 == (Payment { status: PaymentStatus::Paid, ..payment->Some_0 }),
{
    match payment {
        None => match auth {
            Err(e) => Err(e),
            Ok(_) => Err(ApiError::NotFound),
        },
        Some(mut p) => match order_access(auth, order, p.order_id) {
            Err(e) => Err(e),
            Ok(()) => {
                if p.status == PaymentStatus::Paid {
                    Err(ApiError::Conflict)
                } else {
                    p.update_payment_status();
                    Ok(p)
                }
            },
        },
    }
}

} // verus!
