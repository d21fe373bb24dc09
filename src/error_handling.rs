use std::collections::HashMap;
use vstd::prelude::*;
use vstd::string::StringExecFns;

verus! {

broadcast use vstd::std_specs::hash::group_hash_axioms;

/// Orders above this amount, in cents, are refused by the payment check.
pub const MAX_AMOUNT_CENTS: u64 = 100_000;

/// A customer record.
#[derive(Debug, Clone)]
pub struct User {
    pub id: u32,
    pub name: String,
    pub email: String,
}

/// An order placed by the user with id `user_id`, for `amount_cents`
/// hundredths of the currency unit.
#[derive(Debug, Clone)]
pub struct Order {
    pub user_id: u32,
    pub amount_cents: u64,
    pub status: String,
}

/// The users, by id. Read, never changed, by the checks below.
pub type UserDatabase = HashMap<u32, User>;

/// Why an order was refused.
#[derive(Debug, PartialEq, Eq)]
pub enum OrderError {
    UserNotFound(u32),
    InvalidUser(String),
    PaymentFailed(String),
}

/// An `OrderError` with its text seen as a sequence of characters.
pub enum Rejection {
    UserNotFound(u32),
    InvalidUser(Seq<char>),
    PaymentFailed(Seq<char>),
}

impl View for OrderError {
    type V = Rejection;

    open spec fn view(&self) -> Rejection {
        match self {
            OrderError::UserNotFound(id) => Rejection::UserNotFound(*id),
            OrderError::InvalidUser(m) => Rejection::InvalidUser(m@),
            OrderError::PaymentFailed(m) => Rejection::PaymentFailed(m@),
        }
    }
}

/// The decimal digit for `d`, which is below ten.
pub open spec fn digit_char(d: nat) -> char {
    if d == 0 { '0' } else if d == 1 { '1' } else if d == 2 { '2' } else if d == 3 { '3' }
    else if d == 4 { '4' } else if d == 5 { '5' } else if d == 6 { '6' } else if d == 7 { '7' }
    else if d == 8 { '8' } else { '9' }
}

/// `n` written in decimal, without leading zeros.
pub open spec fn decimal(n: nat) -> Seq<char>
    decreases n,
{
    if n < 10 {
        seq![digit_char(n)]
    } else {
        decimal(n / 10) + seq![digit_char(n % 10)]
    }
}

/// A usable email address holds an `@`.
pub open spec fn email_ok(email: Seq<char>) -> bool {
    email.contains('@')
}

/// The text of the error for a user whose email is unusable.
pub open spec fn invalid_email_text(name: Seq<char>) -> Seq<char> {
    "Invalid email for user "@ + name
}

/// The text of the error for an order whose user is missing.
pub open spec fn not_found_text(id: u32) -> Seq<char> {
    "User "@ + decimal(id as nat) + " not found"@
}

/// The text of the error for an amount over the limit.
pub open spec fn too_large_text() -> Seq<char> {
    "Amount too large"@
}

/// The confirmation for an order that passed every check.
pub open spec fn processed_text(name: Seq<char>) -> Seq<char> {
    "Order processed for "@ + name
}

/// The first check that `order` fails against `db`, in the order: the user
/// exists, the user's email is usable, the amount is within the limit.
pub open spec fn order_rejection(db: Map<u32, User>, order: Order) -> Option<Rejection> {
    if !db.contains_key(order.user_id) {
        Some(Rejection::UserNotFound(order.user_id))
    } else if !email_ok(db[order.user_id].email@) {
        Some(Rejection::InvalidUser(invalid_email_text(db[order.user_id].name@)))
    } else if order.amount_cents > MAX_AMOUNT_CENTS {
        Some(Rejection::PaymentFailed(too_large_text()))
    } else {
        None
    }
}

/// The rejection of the first refused order of `orders`, if any.
pub open spec fn batch_rejection(db: Map<u32, User>, orders: Seq<Order>) -> Option<Rejection>
    decreases orders.len(),
{
    if orders.len() == 0 {
        None
    } else {
        match order_rejection(db, orders[0]) {
            Some(e) => Some(e),
            None => batch_rejection(db, orders.drop_first()),
        }
    }
}

/// An order whose user is missing is refused as `UserNotFound` with that
/// id, whatever its amount and status.
pub proof fn lemma_missing_user_rejected(db: Map<u32, User>, order: Order)
    requires
        !db.contains_key(order.user_id),
    ensures
        order_rejection(db, order) == Some(Rejection::UserNotFound(order.user_id)),
{
}

/// An order over the limit whose user exists and has a usable email is
/// refused by the payment check.
pub proof fn lemma_large_amount_rejected(db: Map<u32, User>, order: Order)
    requires
        db.contains_key(order.user_id),
        email_ok(db[order.user_id].email@),
        order.amount_cents > MAX_AMOUNT_CENTS,
    ensures
        order_rejection(db, order) == Some(Rejection::PaymentFailed(too_large_text())),
{
}

/// A batch fails fast: when every order before position `i` passes and the
/// order at `i` is refused, the batch is refused with that order's error,
/// whatever the orders after it hold.
pub proof fn lemma_batch_first_failure(db: Map<u32, User>, orders: Seq<Order>, i: int)
    requires
        0 <= i < orders.len(),
        forall|j: int| 0 <= j < i ==> order_rejection(db, #[trigger] orders[j]) is None,
        order_rejection(db, orders[i]) is Some,
    ensures
        batch_rejection(db, orders) == order_rejection(db, orders[i]),
    decreases i,
{
    if i > 0 {
        let rest = orders.drop_first();
        assert forall|j: int| 0 <= j < i - 1 implies order_rejection(db, #[trigger] rest[j])
            is None by {
            assert(rest[j] == orders[j + 1]);
        }
        assert(order_rejection(db, orders[0]) is None);
        lemma_batch_first_failure(db, rest, i - 1);
    }
}

/// A batch in which every order passes is accepted as a whole.
pub proof fn lemma_batch_all_pass(db: Map<u32, User>, orders: Seq<Order>)
    requires
        forall|j: int| 0 <= j < orders.len() ==> order_rejection(db, #[trigger] orders[j]) is None,
    ensures
        batch_rejection(db, orders) is None,
    decreases orders.len(),
{
    if orders.len() > 0 {
        let rest = orders.drop_first();
        assert forall|j: int| 0 <= j < rest.len() implies order_rejection(db, #[trigger] rest[j])
            is None by {
            assert(rest[j] == orders[j + 1]);
        }
        assert(order_rejection(db, orders[0]) is None);
        lemma_batch_all_pass(db, rest);
    }
}

impl User {
    /// A user with the given id, name and email.
    pub fn new(id: u32, name: &str, email: &str) -> (r: Self)
        ensures
            r.id == id,
            r.name@ == name@,
            r.email@ == email@,
    {
        User { id, name: name.to_owned(), email: email.to_owned() }
    }
}

/// The user with id `id`, if the database holds one.
pub fn find_user(db: &UserDatabase, id: u32) -> (r: Option<&User>)
    ensures
        match r {
            Some(u) => db@.contains_key(id) && *u == db@[id],
            None => !db@.contains_key(id),
        },
{
    db.get(&id)
}

/// Accepts a user whose email holds an `@`.
pub fn validate_user(user: &User) -> (r: Result<&User, String>)
    ensures
        match r {
            Ok(u) => email_ok(user.email@) && u == user,
            Err(m) => !email_ok(user.email@) && m@ == invalid_email_text(user.name@),
        },
{
    if contains_at_sign(user.email.as_str()) {
        Ok(user)
    } else {
        Err(String::from_str("Invalid email for user ").concat(user.name.as_str()))
    }
}

/// Looks up the order's user and checks the user's email.
pub fn process_order<'a>(db: &'a UserDatabase, order: &'a Order) -> (r: Result<
    (&'a User, &'a Order),
    String,
>)
    ensures
        match r {
            Ok((u, o)) => db@.contains_key(order.user_id) && *u == db@[order.user_id]
                && email_ok(u.email@) && o == order,
            Err(m) => if !db@.contains_key(order.user_id) {
                m@ == not_found_text(order.user_id)
            } else {
                !email_ok(db@[order.user_id].email@) && m@ == invalid_email_text(
                    db@[order.user_id].name@,
                )
            },
        },
{
    let user = match find_user(db, order.user_id) {
        Some(u) => u,
        None => {
            let m = String::from_str("User ").concat(decimal_string(order.user_id).as_str());
            return Err(m.concat(" not found"));
        },
    };
    let validated = validate_user(user)?;
    Ok((validated, order))
}

/// The payment check: refuses an amount above `MAX_AMOUNT_CENTS`.
pub fn check_business_rule(order: &Order) -> (r: Result<(), OrderError>)
    ensures
        match r {
            Ok(()) => order.amount_cents <= MAX_AMOUNT_CENTS,
            Err(e) => order.amount_cents > MAX_AMOUNT_CENTS && e@ == Rejection::PaymentFailed(
                too_large_text(),
            ),
        },
{
    if order.amount_cents > MAX_AMOUNT_CENTS {
        Err(OrderError::PaymentFailed(String::from_str("Amount too large")))
    } else {
        Ok(())
    }
}

/// Runs every check on one order, stopping at the first that fails; on
/// success returns a confirmation naming the user.
pub fn process_order_advanced(db: &UserDatabase, order: &Order) -> (r: Result<String, OrderError>)
    ensures
        match r {
            Ok(s) => order_rejection(db@, *order) is None && s@ == processed_text(
                db@[order.user_id].name@,
            ),
            Err(e) => order_rejection(db@, *order) == Some(e@),
        },
{
    let user = match find_user(db, order.user_id) {
        Some(u) => u,
        None => {
            return Err(OrderError::UserNotFound(order.user_id));
        },
    };
    match validate_user(user) {
        Ok(_) => {},
        Err(m) => {
            return Err(OrderError::InvalidUser(m));
        },
    }
    check_business_rule(order)?;
    Ok(String::from_str("Order processed for ").concat(user.name.as_str()))
}

/// Checks the orders in turn and stops at the first refused one, whose
/// error is returned; when none is refused, returns all of them in order.
pub fn validate_orders<'a>(orders: &'a [Order], db: &UserDatabase) -> (r: Result<
    Vec<&'a Order>,
    OrderError,
>)
    ensures
        match r {
            Ok(v) => batch_rejection(db@, orders@) is None && v@.len() == orders@.len() && (
            forall|i: int| 0 <= i < v@.len() ==> *v@[i] == orders@[i]),
            Err(e) => batch_rejection(db@, orders@) == Some(e@),
        },
{
    let n = orders.len();
    let mut i: usize = 0;
    assert(orders@.subrange(0, n as int) =~= orders@);
    while i < n
        invariant
            n == orders@.len(),
            0 <= i <= n,
            batch_rejection(db@, orders@) == batch_rejection(
                db@,
                orders@.subrange(i as int, n as int),
            ),
        decreases n - i,
    {
        proof {
            let rest = orders@.subrange(i as int, n as int);
            assert(rest.drop_first() =~= orders@.subrange(i + 1, n as int));
            assert(rest[0] == orders@[i as int]);
        }
        match process_order_advanced(db, &orders[i]) {
            Ok(_) => {},
            Err(e) => {
                return Err(e);
            },
        }
        i = i + 1;
    }
    let mut out: Vec<&'a Order> = Vec::new();
    let mut j: usize = 0;
    while j < n
        invariant
            n == orders@.len(),
            0 <= j <= n,
            out@.len() == j,
            forall|k: int| 0 <= k < j ==> *out@[k] == orders@[k],
        decreases n - j,
    {
        out.push(&orders[j]);
        j = j + 1;
    }
    Ok(out)
}

impl OrderError {
    /// The error as a sentence for people.
    pub fn message(&self) -> (r: String)
        ensures
            r@ == match self@ {
                Rejection::UserNotFound(id) => not_found_text(id),
                Rejection::InvalidUser(m) => "Invalid user: "@ + m,
                Rejection::PaymentFailed(m) => "Payment failed: "@ + m,
            },
    {
        match self {
            OrderError::UserNotFound(id) => {
                let m = String::from_str("User ").concat(decimal_string(*id).as_str());
                m.concat(" not found")
            },
            OrderError::InvalidUser(m) => String::from_str("Invalid user: ").concat(m.as_str()),
            OrderError::PaymentFailed(m) => String::from_str("Payment failed: ").concat(m.as_str()),
        }
    }
}

/// Relies on str::contains with a `char` pattern: whether the character
/// occurs in the string.
#[verifier::external_body]
fn contains_at_sign(s: &str) -> (r: bool)
    ensures
        r == s@.contains('@'),
{
    s.contains('@')
}

/// Relies on u32's `Display` (through `to_string`): decimal digits, no sign,
/// no leading zeros.
#[verifier::external_body]
fn decimal_string(n: u32) -> (r: String)
    ensures
        r@ == decimal(n as nat),
{
    n.to_string()
}

} // verus!
