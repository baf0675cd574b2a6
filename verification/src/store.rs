use vstd::prelude::*;

verus! {

/// Where a subscriber stands in the confirmation lifecycle.
#[derive(Clone, Copy, Debug, PartialEq, Eq, Structural)]
pub enum SubscriptionStatus {
    PendingConfirmation,
    Confirmed,
}

impl SubscriptionStatus {
    /// The status as the table `subscriptions` spells it.
    pub open spec fn spec_as_str(&self) -> Seq<char> {
        match self {
            SubscriptionStatus::PendingConfirmation => "pending_confirmation"@,
            SubscriptionStatus::Confirmed => "confirmed"@,
        }
    }

    /// The status as the table `subscriptions` spells it.
    pub fn as_str(&self) -> (r: &'static str)
        ensures
            r@ == self.spec_as_str(),
    {
        match self {
            SubscriptionStatus::PendingConfirmation => "pending_confirmation",
            SubscriptionStatus::Confirmed => "confirmed",
        }
    }
}

/// Why the store refused or failed an operation.
#[derive(Clone, Copy, Debug, PartialEq, Eq, Structural)]
pub enum StoreError {
    /// A constraint of the schema would be violated.
    Conflict,
    /// The store could not be reached.
    Unavailable,
}

impl StoreError {
    /// What a failure of the database means to the workflows: a violated key or reference
    /// is a conflict, and anything else counts as the store being out of reach.
    pub fn of_database_failure(unique_violation: bool, foreign_key_violation: bool) -> (e:
        StoreError)
        ensures
            e == (if unique_violation || foreign_key_violation {
                StoreError::Conflict
            } else {
                StoreError::Unavailable
            }),
    {
        if unique_violation || foreign_key_violation {
            StoreError::Conflict
        } else {
            StoreError::Unavailable
        }
    }
}

/// A row of the table `subscriptions`, as a mathematical value.
pub struct SubscriberRow {
    pub id: u128,
    pub email: Seq<char>,
    pub name: Seq<char>,
    pub subscribed_at: i64,
    pub status: SubscriptionStatus,
}

/// A row of the table `subscription_tokens`, as a mathematical value.
pub struct TokenRow {
    pub token: Seq<char>,
    pub subscriber_id: u128,
}

/// A row of the table `subscriptions`.
#[derive(Debug)]
pub struct Subscriber {
    pub id: u128,
    pub email: String,
    pub name: String,
    /// Microseconds since the Unix epoch.
    pub subscribed_at: i64,
    pub status: SubscriptionStatus,
}

/// A row of the table `subscription_tokens`.
#[derive(Debug)]
pub struct SubscriptionToken {
    pub token: String,
    pub subscriber_id: u128,
}

impl View for Subscriber {
    type V = SubscriberRow;

    open spec fn view(&self) -> SubscriberRow {
        SubscriberRow {
            id: self.id,
            email: self.email@,
            name: self.name@,
            subscribed_at: self.subscribed_at,
            status: self.status,
        }
    }
}

impl View for SubscriptionToken {
    type V = TokenRow;

    open spec fn view(&self) -> TokenRow {
        TokenRow { token: self.token@, subscriber_id: self.subscriber_id }
    }
}

impl SubscriberRow {
    /// The same row once its subscriber has confirmed.
    pub open spec fn confirmed(self) -> SubscriberRow {
        SubscriberRow { status: SubscriptionStatus::Confirmed, ..self }
    }
}

/// Some row of `rows` has the id `id`.
pub open spec fn has_id(rows: Seq<SubscriberRow>, id: u128) -> bool {
    exists|i: int| 0 <= i < rows.len() && (#[trigger] rows[i]).id == id
}

/// Some row of `rows` holds the token `token`.
pub open spec fn has_token(rows: Seq<TokenRow>, token: Seq<char>) -> bool {
    exists|i: int| 0 <= i < rows.len() && (#[trigger] rows[i]).token == token
}

/// No two rows of `rows` share an id.
pub open spec fn ids_distinct(rows: Seq<SubscriberRow>) -> bool {
    forall|i: int, j: int|
        0 <= i < j < rows.len() ==> (#[trigger] rows[i]).id != (#[trigger] rows[j]).id
}

/// No two rows of `rows` share a token.
pub open spec fn tokens_distinct(rows: Seq<TokenRow>) -> bool {
    forall|i: int, j: int|
        0 <= i < j < rows.len() ==> (#[trigger] rows[i]).token != (#[trigger] rows[j]).token
}

/// The emails of the confirmed rows of `rows`, in the order of the rows.
pub open spec fn confirmed_emails(rows: Seq<SubscriberRow>) -> Seq<Seq<char>>
    decreases rows.len(),
{
    if rows.len() == 0 {
        Seq::empty()
    } else if rows.last().status == SubscriptionStatus::Confirmed {
        confirmed_emails(rows.drop_last()).push(rows.last().email)
    } else {
        confirmed_emails(rows.drop_last())
    }
}

/// The two tables of the store, as a mathematical value.
pub struct Tables {
    pub subscriptions: Seq<SubscriberRow>,
    pub subscription_tokens: Seq<TokenRow>,
}

impl Tables {
    pub open spec fn empty() -> Tables {
        Tables { subscriptions: Seq::empty(), subscription_tokens: Seq::empty() }
    }

    /// The constraints of the schema: `id` is the key of `subscriptions`, `token` is the key
    /// of `subscription_tokens`, and every token names a subscriber that exists.
    pub open spec fn wf(self) -> bool {
        &&& ids_distinct(self.subscriptions)
        &&& tokens_distinct(self.subscription_tokens)
        &&& forall|k: int|
            0 <= k < self.subscription_tokens.len() ==> has_id(
                self.subscriptions,
                (#[trigger] self.subscription_tokens[k]).subscriber_id,
            )
    }

    pub open spec fn with_subscriber(self, row: SubscriberRow) -> Tables {
        Tables { subscriptions: self.subscriptions.push(row), ..self }
    }

    pub open spec fn with_token(self, row: TokenRow) -> Tables {
        Tables { subscription_tokens: self.subscription_tokens.push(row), ..self }
    }

    /// The rows of `self` followed by the rows of `other`, table by table.
    pub open spec fn join(self, other: Tables) -> Tables {
        Tables {
            subscriptions: self.subscriptions + other.subscriptions,
            subscription_tokens: self.subscription_tokens + other.subscription_tokens,
        }
    }

    /// The subscriber that the row holding `token` names, if there is such a row.
    pub open spec fn subscriber_id_of(self, token: Seq<char>) -> Option<u128> {
        if has_token(self.subscription_tokens, token) {
            let k = choose|k: int|
                0 <= k < self.subscription_tokens.len() && (
                #[trigger] self.subscription_tokens[k]).token == token;
            Some(self.subscription_tokens[k].subscriber_id)
        } else {
            None
        }
    }

    /// The tables after every row with the id `id` has been set to confirmed.
    pub open spec fn mark_confirmed(self, id: u128) -> Tables {
        Tables {
            subscriptions: Seq::new(
                self.subscriptions.len(),
                |i: int|
                    if self.subscriptions[i].id == id {
                        self.subscriptions[i].confirmed()
                    } else {
                        self.subscriptions[i]
                    },
            ),
            ..self
        }
    }

    /// The status of the subscriber `id`, if there is one.
    pub open spec fn status_of(self, id: u128) -> Option<SubscriptionStatus> {
        if has_id(self.subscriptions, id) {
            let i = choose|i: int|
                0 <= i < self.subscriptions.len() && (#[trigger] self.subscriptions[i]).id == id;
            Some(self.subscriptions[i].status)
        } else {
            None
        }
    }
}

/// The rows that a vector of subscribers stands for.
pub open spec fn rows_of(v: Seq<Subscriber>) -> Seq<SubscriberRow> {
    Seq::new(v.len(), |i: int| v[i]@)
}

/// The rows that a vector of tokens stands for.
pub open spec fn token_rows_of(v: Seq<SubscriptionToken>) -> Seq<TokenRow> {
    Seq::new(v.len(), |i: int| v[i]@)
}

pub proof fn lemma_has_id_push(rows: Seq<SubscriberRow>, row: SubscriberRow, id: u128)
    ensures
        has_id(rows.push(row), id) == (has_id(rows, id) || row.id == id),
{
    let longer = rows.push(row);
    if has_id(rows, id) {
        let i = choose|i: int| 0 <= i < rows.len() && (#[trigger] rows[i]).id == id;
        assert(longer[i].id == id);
    }
    if row.id == id {
        assert(longer[rows.len() as int].id == id);
    }
    if has_id(longer, id) {
        let i = choose|i: int| 0 <= i < longer.len() && (#[trigger] longer[i]).id == id;
        if i < rows.len() {
            assert(rows[i].id == id);
        }
    }
}

pub proof fn lemma_has_id_concat(a: Seq<SubscriberRow>, b: Seq<SubscriberRow>, id: u128)
    ensures
        has_id(a + b, id) == (has_id(a, id) || has_id(b, id)),
{
    let both = a + b;
    if has_id(a, id) {
        let i = choose|i: int| 0 <= i < a.len() && (#[trigger] a[i]).id == id;
        assert(both[i].id == id);
    }
    if has_id(b, id) {
        let i = choose|i: int| 0 <= i < b.len() && (#[trigger] b[i]).id == id;
        assert(both[a.len() + i].id == id);
    }
    if has_id(both, id) {
        let i = choose|i: int| 0 <= i < both.len() && (#[trigger] both[i]).id == id;
        if i < a.len() {
            assert(a[i].id == id);
        } else {
            assert(b[i - a.len()].id == id);
        }
    }
}

pub proof fn lemma_ids_distinct_push(rows: Seq<SubscriberRow>, row: SubscriberRow)
    ensures
        ids_distinct(rows.push(row)) == (ids_distinct(rows) && !has_id(rows, row.id)),
{
    let longer = rows.push(row);
    if ids_distinct(longer) {
        assert forall|i: int, j: int| 0 <= i < j < rows.len() implies (#[trigger] rows[i]).id != (
        #[trigger] rows[j]).id by {
            assert(longer[i].id != longer[j].id);
        }
        if has_id(rows, row.id) {
            let i = choose|i: int| 0 <= i < rows.len() && (#[trigger] rows[i]).id == row.id;
            assert(longer[i].id != longer[rows.len() as int].id);
        }
    }
    if ids_distinct(rows) && !has_id(rows, row.id) {
        assert forall|i: int, j: int| 0 <= i < j < longer.len() implies (#[trigger] longer[i]).id
            != (#[trigger] longer[j]).id by {
            if j < rows.len() {
                assert(rows[i].id != rows[j].id);
            } else {
                assert(rows[i].id != row.id);
            }
        }
    }
}

pub proof fn lemma_ids_distinct_prefix(rows: Seq<SubscriberRow>, n: int)
    requires
        ids_distinct(rows),
        0 <= n <= rows.len(),
    ensures
        ids_distinct(rows.take(n)),
{
    let prefix = rows.take(n);
    assert forall|i: int, j: int| 0 <= i < j < prefix.len() implies (#[trigger] prefix[i]).id != (
    #[trigger] prefix[j]).id by {
        assert(rows[i].id != rows[j].id);
    }
}

pub proof fn lemma_has_token_concat(a: Seq<TokenRow>, b: Seq<TokenRow>, token: Seq<char>)
    ensures
        has_token(a + b, token) == (has_token(a, token) || has_token(b, token)),
{
    let both = a + b;
    if has_token(a, token) {
        let i = choose|i: int| 0 <= i < a.len() && (#[trigger] a[i]).token == token;
        assert(both[i].token == token);
    }
    if has_token(b, token) {
        let i = choose|i: int| 0 <= i < b.len() && (#[trigger] b[i]).token == token;
        assert(both[a.len() + i].token == token);
    }
    if has_token(both, token) {
        let i = choose|i: int| 0 <= i < both.len() && (#[trigger] both[i]).token == token;
        if i < a.len() {
            assert(a[i].token == token);
        } else {
            assert(b[i - a.len()].token == token);
        }
    }
}

pub proof fn lemma_tokens_distinct_push(rows: Seq<TokenRow>, row: TokenRow)
    ensures
        tokens_distinct(rows.push(row)) == (tokens_distinct(rows) && !has_token(rows, row.token)),
{
    let longer = rows.push(row);
    if tokens_distinct(longer) {
        assert forall|i: int, j: int| 0 <= i < j < rows.len() implies (#[trigger] rows[i]).token
            != (#[trigger] rows[j]).token by {
            assert(longer[i].token != longer[j].token);
        }
        if has_token(rows, row.token) {
            let i = choose|i: int| 0 <= i < rows.len() && (#[trigger] rows[i]).token == row.token;
            assert(longer[i].token != longer[rows.len() as int].token);
        }
    }
    if tokens_distinct(rows) && !has_token(rows, row.token) {
        assert forall|i: int, j: int| 0 <= i < j < longer.len() implies (
        #[trigger] longer[i]).token != (#[trigger] longer[j]).token by {
            if j < rows.len() {
                assert(rows[i].token != rows[j].token);
            } else {
                assert(rows[i].token != row.token);
            }
        }
    }
}

pub proof fn lemma_tokens_distinct_prefix(rows: Seq<TokenRow>, n: int)
    requires
        tokens_distinct(rows),
        0 <= n <= rows.len(),
    ensures
        tokens_distinct(rows.take(n)),
{
    let prefix = rows.take(n);
    assert forall|i: int, j: int| 0 <= i < j < prefix.len() implies (#[trigger] prefix[i]).token
        != (#[trigger] prefix[j]).token by {
        assert(rows[i].token != rows[j].token);
    }
}

/// Whether one of the first `upto` rows has the id `id`.
fn contains_id(rows: &Vec<Subscriber>, upto: usize, id: u128) -> (r: bool)
    requires
        upto <= rows.len(),
    ensures
        r == has_id(rows_of(rows@).take(upto as int), id),
{
    let ghost prefix = rows_of(rows@).take(upto as int);
    let mut i: usize = 0;
    while i < upto
        invariant
            i <= upto <= rows.len(),
            prefix == rows_of(rows@).take(upto as int),
            forall|k: int| 0 <= k < i ==> (#[trigger] prefix[k]).id != id,
        decreases upto - i,
    {
        if rows[i].id == id {
            assert(prefix[i as int].id == id);
            return true;
        }
        i += 1;
    }
    false
}

/// Whether one of the first `upto` rows holds the token `token`.
fn contains_token(rows: &Vec<SubscriptionToken>, upto: usize, token: &String) -> (r: bool)
    requires
        upto <= rows.len(),
    ensures
        r == has_token(token_rows_of(rows@).take(upto as int), token@),
{
    let ghost prefix = token_rows_of(rows@).take(upto as int);
    let mut i: usize = 0;
    while i < upto
        invariant
            i <= upto <= rows.len(),
            prefix == token_rows_of(rows@).take(upto as int),
            forall|k: int| 0 <= k < i ==> (#[trigger] prefix[k]).token != token@,
        decreases upto - i,
    {
        if rows[i].token == *token {
            assert(prefix[i as int].token == token@);
            return true;
        }
        i += 1;
    }
    false
}

/// Whether the staged rows can follow the stored ones without two rows sharing an id.
fn ids_fit(base: &Vec<Subscriber>, staged: &Vec<Subscriber>) -> (r: bool)
    requires
        ids_distinct(rows_of(base@)),
    ensures
        r == ids_distinct(rows_of(base@) + rows_of(staged@)),
{
    let ghost stored = rows_of(base@);
    let ghost added = rows_of(staged@);
    let mut j: usize = 0;
    assert(stored + added.take(0) =~= stored);
    while j < staged.len()
        invariant
            j <= staged.len(),
            stored == rows_of(base@),
            added == rows_of(staged@),
            ids_distinct(stored + added.take(j as int)),
        decreases staged.len() - j,
    {
        let id = staged[j].id;
        let taken = contains_id(base, base.len(), id) || contains_id(staged, j, id);
        proof {
            let prefix = stored + added.take(j as int);
            assert(stored.take(base.len() as int) =~= stored);
            lemma_has_id_concat(stored, added.take(j as int), id);
            lemma_ids_distinct_push(prefix, added[j as int]);
            assert(prefix.push(added[j as int]) =~= stored + added.take(j + 1));
            assert(stored + added.take(j + 1) =~= (stored + added).take(stored.len() + j + 1));
            if ids_distinct(stored + added) {
                lemma_ids_distinct_prefix(stored + added, stored.len() + j + 1);
            }
        }
        if taken {
            return false;
        }
        j += 1;
    }
    assert(added.take(j as int) =~= added);
    true
}

/// Whether the staged rows can follow the stored ones without two rows sharing a token.
fn tokens_fit(base: &Vec<SubscriptionToken>, staged: &Vec<SubscriptionToken>) -> (r: bool)
    requires
        tokens_distinct(token_rows_of(base@)),
    ensures
        r == tokens_distinct(token_rows_of(base@) + token_rows_of(staged@)),
{
    let ghost stored = token_rows_of(base@);
    let ghost added = token_rows_of(staged@);
    let mut j: usize = 0;
    assert(stored + added.take(0) =~= stored);
    while j < staged.len()
        invariant
            j <= staged.len(),
            stored == token_rows_of(base@),
            added == token_rows_of(staged@),
            tokens_distinct(stored + added.take(j as int)),
        decreases staged.len() - j,
    {
        let taken = contains_token(base, base.len(), &staged[j].token) || contains_token(
            staged,
            j,
            &staged[j].token,
        );
        proof {
            let prefix = stored + added.take(j as int);
            assert(stored.take(base.len() as int) =~= stored);
            lemma_has_token_concat(stored, added.take(j as int), added[j as int].token);
            lemma_tokens_distinct_push(prefix, added[j as int]);
            assert(prefix.push(added[j as int]) =~= stored + added.take(j + 1));
            assert(stored + added.take(j + 1) =~= (stored + added).take(stored.len() + j + 1));
            if tokens_distinct(stored + added) {
                lemma_tokens_distinct_prefix(stored + added, stored.len() + j + 1);
            }
        }
        if taken {
            return false;
        }
        j += 1;
    }
    assert(added.take(j as int) =~= added);
    true
}

/// Every staged token names a subscriber that is stored or staged.
pub open spec fn references_resolve(
    stored: Seq<SubscriberRow>,
    staged: Seq<SubscriberRow>,
    tokens: Seq<TokenRow>,
) -> bool {
    forall|k: int|
        0 <= k < tokens.len() ==> has_id(stored + staged, (#[trigger] tokens[k]).subscriber_id)
}

fn references_fit(
    base: &Vec<Subscriber>,
    staged: &Vec<Subscriber>,
    tokens: &Vec<SubscriptionToken>,
) -> (r: bool)
    ensures
        r == references_resolve(rows_of(base@), rows_of(staged@), token_rows_of(tokens@)),
{
    let ghost stored = rows_of(base@);
    let ghost added = rows_of(staged@);
    let ghost rows = token_rows_of(tokens@);
    let mut k: usize = 0;
    while k < tokens.len()
        invariant
            k <= tokens.len(),
            stored == rows_of(base@),
            added == rows_of(staged@),
            rows == token_rows_of(tokens@),
            forall|n: int| 0 <= n < k ==> has_id(stored + added, (#[trigger] rows[n]).subscriber_id),
        decreases tokens.len() - k,
    {
        let id = tokens[k].subscriber_id;
        let found = contains_id(base, base.len(), id) || contains_id(staged, staged.len(), id);
        proof {
            assert(stored.take(base.len() as int) =~= stored);
            assert(added.take(staged.len() as int) =~= added);
            lemma_has_id_concat(stored, added, id);
            assert(rows[k as int].subscriber_id == id);
        }
        if !found {
            return false;
        }
        k += 1;
    }
    true
}

/// The rows that a transaction has staged and not yet committed.
#[derive(Debug)]
pub struct Transaction {
    subscribers: Vec<Subscriber>,
    tokens: Vec<SubscriptionToken>,
}

impl View for Transaction {
    type V = Tables;

    closed spec fn view(&self) -> Tables {
        Tables {
            subscriptions: rows_of(self.subscribers@),
            subscription_tokens: token_rows_of(self.tokens@),
        }
    }
}

/// A store of subscribers and confirmation tokens held in memory. It keeps the constraints
/// of the schema at all times, and changes only by whole transactions or by the single-row
/// status update. The email is no key: what a second subscription under an email that is
/// stored already should mean is left open, and the store takes it as it takes any other.
#[derive(Debug)]
pub struct Store {
    subscribers: Vec<Subscriber>,
    tokens: Vec<SubscriptionToken>,
}

impl View for Store {
    type V = Tables;

    closed spec fn view(&self) -> Tables {
        Tables {
            subscriptions: rows_of(self.subscribers@),
            subscription_tokens: token_rows_of(self.tokens@),
        }
    }
}

impl Store {
    #[verifier::type_invariant]
    spec fn keeps_constraints(&self) -> bool {
        self@.wf()
    }

    /// A store with no rows.
    pub fn new() -> (store: Store)
        ensures
            store@ == Tables::empty(),
    {
        let store = Store { subscribers: Vec::new(), tokens: Vec::new() };
        assert(store@.subscriptions =~= Seq::empty());
        assert(store@.subscription_tokens =~= Seq::empty());
        store
    }

    /// Opens a transaction; nothing is staged in it yet.
    pub fn begin(&self) -> (tx: Transaction)
        ensures
            tx@ == Tables::empty(),
            self@.wf(),
    {
        proof {
            use_type_invariant(self);
        }
        let tx = Transaction { subscribers: Vec::new(), tokens: Vec::new() };
        assert(tx@.subscriptions =~= Seq::empty());
        assert(tx@.subscription_tokens =~= Seq::empty());
        tx
    }

    /// Stages `row` in `tx`. It is refused with `Conflict`, and `tx` left as it was, exactly
    /// when a stored or staged subscriber already has its id.
    pub fn insert_subscriber(&self, tx: &mut Transaction, row: Subscriber) -> (r: Result<
        (),
        StoreError,
    >)
        ensures
            r is Ok <==> !has_id(self@.subscriptions, row.id) && !has_id(
                old(tx)@.subscriptions,
                row.id,
            ),
            r is Ok ==> final(tx)@ == old(tx)@.with_subscriber(row@),
            r is Err ==> r == Err::<(), StoreError>(StoreError::Conflict) && final(tx)@ == old(tx)@,
    {
        let taken = contains_id(&self.subscribers, self.subscribers.len(), row.id) || contains_id(
            &tx.subscribers,
            tx.subscribers.len(),
            row.id,
        );
        proof {
            assert(self@.subscriptions.take(self.subscribers.len() as int) =~= self@.subscriptions);
            assert(tx@.subscriptions.take(tx.subscribers.len() as int) =~= tx@.subscriptions);
        }
        if taken {
            return Err(StoreError::Conflict);
        }
        tx.subscribers.push(row);
        assert(tx@.subscriptions =~= old(tx)@.subscriptions.push(row@));
        Ok(())
    }

    /// Stages `row` in `tx`. It is refused with `Conflict`, and `tx` left as it was, exactly
    /// when a stored or staged row already holds its token, or when no stored or staged
    /// subscriber has the id it names.
    pub fn insert_token(&self, tx: &mut Transaction, row: SubscriptionToken) -> (r: Result<
        (),
        StoreError,
    >)
        ensures
            r is Ok <==> {
                &&& !has_token(self@.subscription_tokens, row.token@)
                &&& !has_token(old(tx)@.subscription_tokens, row.token@)
                &&& (has_id(self@.subscriptions, row.subscriber_id) || has_id(
                    old(tx)@.subscriptions,
                    row.subscriber_id,
                ))
            },
            r is Ok ==> final(tx)@ == old(tx)@.with_token(row@),
            r is Err ==> r == Err::<(), StoreError>(StoreError::Conflict) && final(tx)@ == old(tx)@,
    {
        let taken = contains_token(&self.tokens, self.tokens.len(), &row.token) || contains_token(
            &tx.tokens,
            tx.tokens.len(),
            &row.token,
        );
        let known = contains_id(&self.subscribers, self.subscribers.len(), row.subscriber_id)
            || contains_id(&tx.subscribers, tx.subscribers.len(), row.subscriber_id);
        proof {
            assert(self@.subscriptions.take(self.subscribers.len() as int) =~= self@.subscriptions);
            assert(tx@.subscriptions.take(tx.subscribers.len() as int) =~= tx@.subscriptions);
            assert(self@.subscription_tokens.take(self.tokens.len() as int)
                =~= self@.subscription_tokens);
            assert(tx@.subscription_tokens.take(tx.tokens.len() as int)
                =~= tx@.subscription_tokens);
        }
        if taken || !known {
            return Err(StoreError::Conflict);
        }
        tx.tokens.push(row);
        assert(tx@.subscription_tokens =~= old(tx)@.subscription_tokens.push(row@));
        Ok(())
    }

    /// Makes the rows staged in `tx` part of the store, all of them or none. It is refused
    /// with `Conflict`, and the store left as it was, exactly when the stored rows followed
    /// by the staged ones would break a constraint of the schema.
    pub fn commit(&mut self, tx: Transaction) -> (r: Result<(), StoreError>)
        ensures
            old(self)@.wf(),
            final(self)@.wf(),
            r is Ok <==> old(self)@.join(tx@).wf(),
            r is Ok ==> final(self)@ == old(self)@.join(tx@),
            r is Err ==> r == Err::<(), StoreError>(StoreError::Conflict) && final(self)@ == old(
                self,
            )@,
    {
        proof {
            use_type_invariant(&*self);
        }
        let fits = ids_fit(&self.subscribers, &tx.subscribers) && tokens_fit(
            &self.tokens,
            &tx.tokens,
        ) && references_fit(&self.subscribers, &tx.subscribers, &tx.tokens);
        proof {
            let stored = self@;
            let joined = stored.join(tx@);
            if fits {
                assert forall|k: int| 0 <= k < joined.subscription_tokens.len() implies has_id(
                    joined.subscriptions,
                    (#[trigger] joined.subscription_tokens[k]).subscriber_id,
                ) by {
                    if k < stored.subscription_tokens.len() {
                        lemma_has_id_concat(
                            stored.subscriptions,
                            tx@.subscriptions,
                            stored.subscription_tokens[k].subscriber_id,
                        );
                    } else {
                        let n = k - stored.subscription_tokens.len();
                        assert(joined.subscription_tokens[k] == tx@.subscription_tokens[n]);
                    }
                }
            }
            if joined.wf() {
                assert forall|n: int| 0 <= n < tx@.subscription_tokens.len() implies has_id(
                    joined.subscriptions,
                    (#[trigger] tx@.subscription_tokens[n]).subscriber_id,
                ) by {
                    let k = stored.subscription_tokens.len() + n;
                    assert(joined.subscription_tokens[k] == tx@.subscription_tokens[n]);
                }
            }
        }
        if !fits {
            return Err(StoreError::Conflict);
        }
        let mut tx = tx;
        let ghost staged = tx@;
        let mut tokens: Vec<SubscriptionToken> = Vec::new();
        let mut subscribers: Vec<Subscriber> = Vec::new();
        std::mem::swap(&mut self.tokens, &mut tokens);
        std::mem::swap(&mut self.subscribers, &mut subscribers);
        subscribers.append(&mut tx.subscribers);
        tokens.append(&mut tx.tokens);
        proof {
            assert(rows_of(subscribers@) =~= old(self)@.subscriptions + staged.subscriptions);
            assert(token_rows_of(tokens@) =~= old(self)@.subscription_tokens
                + staged.subscription_tokens);
        }
        std::mem::swap(&mut self.subscribers, &mut subscribers);
        std::mem::swap(&mut self.tokens, &mut tokens);
        Ok(())
    }

    /// Gives up the rows staged in `tx`; the store never sees them.
    pub fn rollback(&self, tx: Transaction)
        ensures
            self@.wf(),
    {
        proof {
            use_type_invariant(self);
        }
    }

    /// The subscriber that the row holding `token` names, if there is such a row.
    pub fn find_subscriber_id_by_token(&self, token: &str) -> (r: Option<u128>)
        ensures
            r == self@.subscriber_id_of(token@),
    {
        proof {
            use_type_invariant(self);
        }
        let wanted = String::from_str(token);
        let mut k: usize = 0;
        while k < self.tokens.len()
            invariant
                k <= self.tokens.len(),
                wanted@ == token@,
                self@.wf(),
                forall|n: int| 0 <= n < k ==> (#[trigger] self@.subscription_tokens[n]).token
                    != token@,
            decreases self.tokens.len() - k,
        {
            if self.tokens[k].token == wanted {
                assert(self@.subscription_tokens[k as int].token == token@);
                return Some(self.tokens[k].subscriber_id);
            }
            k += 1;
        }
        None
    }

    /// Sets the subscriber `id` to confirmed. A subscriber that is confirmed already stays
    /// so, and an id that no row has changes nothing; neither is an error.
    pub fn mark_confirmed(&mut self, id: u128) -> (r: Result<(), StoreError>)
        ensures
            r is Ok,
            final(self)@ == old(self)@.mark_confirmed(id),
            final(self)@.wf(),
    {
        proof {
            use_type_invariant(&*self);
        }
        let mut tokens: Vec<SubscriptionToken> = Vec::new();
        let mut subscribers: Vec<Subscriber> = Vec::new();
        std::mem::swap(&mut self.tokens, &mut tokens);
        std::mem::swap(&mut self.subscribers, &mut subscribers);
        confirm_rows(&mut subscribers, id);
        proof {
            assert(rows_of(subscribers@) =~= old(self)@.mark_confirmed(id).subscriptions);
            lemma_mark_confirmed_keeps_constraints(old(self)@, id);
        }
        std::mem::swap(&mut self.subscribers, &mut subscribers);
        std::mem::swap(&mut self.tokens, &mut tokens);
        Ok(())
    }

    /// The stored emails of the confirmed subscribers, in the order of their rows.
    pub fn confirmed_emails(&self) -> (emails: Vec<String>)
        ensures
            emails.len() == confirmed_emails(self@.subscriptions).len(),
            forall|i: int|
                0 <= i < emails.len() ==> (#[trigger] emails[i])@ == confirmed_emails(
                    self@.subscriptions,
                )[i],
    {
        let ghost rows = self@.subscriptions;
        let mut emails: Vec<String> = Vec::new();
        let mut i: usize = 0;
        assert(rows.take(0) =~= Seq::empty());
        while i < self.subscribers.len()
            invariant
                i <= self.subscribers.len(),
                rows == self@.subscriptions,
                rows.len() == self.subscribers.len(),
                emails.len() == confirmed_emails(rows.take(i as int)).len(),
                forall|k: int|
                    0 <= k < emails.len() ==> (#[trigger] emails[k])@ == confirmed_emails(
                        rows.take(i as int),
                    )[k],
            decreases self.subscribers.len() - i,
        {
            proof {
                assert(rows.take(i + 1).drop_last() =~= rows.take(i as int));
                assert(rows.take(i + 1).last() == rows[i as int]);
            }
            if self.subscribers[i].status == SubscriptionStatus::Confirmed {
                emails.push(self.subscribers[i].email.clone());
            }
            i += 1;
        }
        assert(rows.take(i as int) =~= rows);
        emails
    }

    /// The rows of the table `subscriptions`.
    pub fn subscribers(&self) -> (rows: &Vec<Subscriber>)
        ensures
            rows_of(rows@) == self@.subscriptions,
    {
        &self.subscribers
    }

    /// The rows of the table `subscription_tokens`.
    pub fn tokens(&self) -> (rows: &Vec<SubscriptionToken>)
        ensures
            token_rows_of(rows@) == self@.subscription_tokens,
    {
        &self.tokens
    }
}

/// Confirming a subscriber touches no id and no token, so the constraints stay.
pub proof fn lemma_mark_confirmed_keeps_constraints(tables: Tables, id: u128)
    requires
        tables.wf(),
    ensures
        tables.mark_confirmed(id).wf(),
{
    let after = tables.mark_confirmed(id);
    assert forall|i: int| 0 <= i < after.subscriptions.len() implies (
    #[trigger] after.subscriptions[i]).id == tables.subscriptions[i].id by {}
    assert forall|i: int, j: int| 0 <= i < j < after.subscriptions.len() implies (
    #[trigger] after.subscriptions[i]).id != (#[trigger] after.subscriptions[j]).id by {
        assert(tables.subscriptions[i].id != tables.subscriptions[j].id);
    }
    assert forall|k: int| 0 <= k < after.subscription_tokens.len() implies has_id(
        after.subscriptions,
        (#[trigger] after.subscription_tokens[k]).subscriber_id,
    ) by {
        let wanted = tables.subscription_tokens[k].subscriber_id;
        let i = choose|i: int|
            0 <= i < tables.subscriptions.len() && (#[trigger] tables.subscriptions[i]).id
                == wanted;
        assert(after.subscriptions[i].id == wanted);
    }
}

/// Sets every row with the id `id` to confirmed.
fn confirm_rows(rows: &mut Vec<Subscriber>, id: u128)
    ensures
        final(rows).len() == old(rows).len(),
        forall|i: int|
            0 <= i < old(rows).len() ==> (#[trigger] final(rows)[i])@ == (if old(rows)[i].id == id {
                old(rows)[i]@.confirmed()
            } else {
                old(rows)[i]@
            }),
{
    let mut i: usize = 0;
    while i < rows.len()
        invariant
            i <= rows.len(),
            rows.len() == old(rows).len(),
            forall|k: int|
                0 <= k < i ==> (#[trigger] rows[k])@ == (if old(rows)[k].id == id {
                    old(rows)[k]@.confirmed()
                } else {
                    old(rows)[k]@
                }),
            forall|k: int| i <= k < rows.len() ==> (#[trigger] rows[k]) == old(rows)[k],
        decreases rows.len() - i,
    {
        if rows[i].id == id {
            rows[i].status = SubscriptionStatus::Confirmed;
        }
        i += 1;
    }
}

} // verus!
