use vstd::prelude::*;

verus! {

use crate::post::Post;

/// Which listing the controller is aimed at: the signed-in user's front
/// page, or one named subreddit.
#[derive(Debug)]
pub enum FeedKey {
    Home,
    Subreddit(String),
}

/// Two feed keys select the same listing.
pub open spec fn key_eq(a: FeedKey, b: FeedKey) -> bool {
    match (a, b) {
        (FeedKey::Home, FeedKey::Home) => true,
        (FeedKey::Subreddit(x), FeedKey::Subreddit(y)) => x@ == y@,
        _ => false,
    }
}

impl FeedKey {
    /// The display name of the feed: `home` for the front page, the
    /// subreddit's own name otherwise.
    pub open spec fn spec_name(self) -> Seq<char> {
        match self {
            FeedKey::Home => "home"@,
            FeedKey::Subreddit(name) => name@,
        }
    }

    pub fn name(&self) -> (r: String)
        ensures
            r@ == self.spec_name(),
    {
        match self {
            FeedKey::Home => String::from_str("home"),
            FeedKey::Subreddit(name) => name.clone(),
        }
    }
}

impl Clone for FeedKey {
    fn clone(&self) -> (r: FeedKey)
        ensures
            r == *self,
    {
        match self {
            FeedKey::Home => FeedKey::Home,
            FeedKey::Subreddit(name) => FeedKey::Subreddit(name.clone()),
        }
    }
}

impl PartialEq for FeedKey {
    fn eq(&self, other: &FeedKey) -> bool {
        match (self, other) {
            (FeedKey::Home, FeedKey::Home) => true,
            (FeedKey::Subreddit(a), FeedKey::Subreddit(b)) => a.eq(b),
            _ => false,
        }
    }
}

impl vstd::std_specs::cmp::PartialEqSpecImpl for FeedKey {
    open spec fn obeys_eq_spec() -> bool {
        true
    }

    open spec fn eq_spec(&self, other: &FeedKey) -> bool {
        key_eq(*self, *other)
    }
}

/// Pagination position within the current feed.
///
/// `Start` is the absent cursor: the next fetch asks for the first page.
/// `Token` carries the opaque token the provider returned with the most
/// recent page. `Unknown` says "past the start, but no token in hand": a
/// fetch issued with it must not be mistaken for a fresh load, so that it
/// cannot wipe the posts already shown.
#[derive(Debug)]
pub enum Cursor {
    Start,
    Token(String),
    Unknown,
}

impl Clone for Cursor {
    fn clone(&self) -> (r: Cursor)
        ensures
            r == *self,
    {
        match self {
            Cursor::Start => Cursor::Start,
            Cursor::Token(t) => Cursor::Token(t.clone()),
            Cursor::Unknown => Cursor::Unknown,
        }
    }
}

/// Whether a fetch begins a feed afresh or extends it by one page.
#[derive(Clone, Copy, Debug, PartialEq, Eq, Structural)]
pub enum FetchKind {
    Initial,
    More,
}

/// A fetch the controller has decided on. The caller performs the request
/// for `key` at `cursor` off the render thread and hands the outcome back to
/// `complete_fetch` together with this command.
#[derive(Debug)]
pub struct FetchCommand {
    pub key: FeedKey,
    pub kind: FetchKind,
    pub cursor: Cursor,
}

impl Clone for FetchCommand {
    fn clone(&self) -> (r: FetchCommand)
        ensures
            r == *self,
    {
        FetchCommand { key: self.key.clone(), kind: self.kind, cursor: self.cursor.clone() }
    }
}

/// What a completed listing fetch carries: the page's posts in the order the
/// API returned them, and the provider's cursor for the page after them.
#[derive(Debug)]
pub struct FetchSuccess {
    pub posts: Vec<Post>,
    pub after: Option<String>,
}

/// The per-feed lifecycle the renderer reads each frame.
#[derive(Debug)]
pub enum LoadingState {
    Idle,
    InitialLoading,
    LoadingMore,
    Error(String),
}

/// A load of the next page is triggered within this many layout units of the
/// bottom of the scrolled content.
pub const NEAR_BOTTOM_THRESHOLD: i64 = 1500;

/// After a trigger fires, further triggers are suppressed for this many
/// milliseconds while the fetch propagates.
pub const LOAD_MORE_COOLDOWN_MS: u64 = 500;

/// The abstract state of a feed controller, over which every operation's
/// contract is stated.
#[verifier::ext_equal]
pub ghost struct FeedView {
    pub key: FeedKey,
    pub posts: Seq<Post>,
    pub cursor: Cursor,
    pub error: Option<String>,
    pub in_flight: Option<FetchCommand>,
    pub subscribed: Seq<String>,
    pub fetching_subscriptions: bool,
    pub cooldown_until: Option<u64>,
}

/// The controller's state at construction: home feed, nothing loaded, idle.
pub open spec fn initial_view() -> FeedView {
    FeedView {
        key: FeedKey::Home,
        posts: Seq::empty(),
        cursor: Cursor::Start,
        error: None,
        in_flight: None,
        subscribed: Seq::empty(),
        fetching_subscriptions: false,
        cooldown_until: None,
    }
}

/// What `switch_feed` does: a no-op while a fetch is in flight; otherwise it
/// clears posts, cursor and error, and starts an initial fetch for `key`.
pub open spec fn switch_feed_spec(pre: FeedView, key: FeedKey) -> (FeedView, Option<
    FetchCommand,
>) {
    if pre.in_flight is Some {
        (pre, None)
    } else {
        let cmd = FetchCommand { key: key, kind: FetchKind::Initial, cursor: Cursor::Start };
        (
            FeedView {
                key: key,
                posts: Seq::empty(),
                cursor: Cursor::Start,
                error: None,
                in_flight: Some(cmd),
                ..pre
            },
            Some(cmd),
        )
    }
}

/// The cursor a `load_more` fetch is issued with. A start cursor beside a
/// non-empty post list is an inconsistent state: the fetch is issued with
/// the `Unknown` marker so its result appends instead of replacing.
pub open spec fn issued_cursor(pre: FeedView) -> Cursor {
    if pre.cursor is Start && pre.posts.len() > 0 {
        Cursor::Unknown
    } else {
        pre.cursor
    }
}

/// What `load_more` does: a no-op while a fetch is in flight; otherwise it
/// starts a fetch of the next page of the current feed at the stored cursor.
pub open spec fn load_more_spec(pre: FeedView) -> (FeedView, Option<FetchCommand>) {
    if pre.in_flight is Some {
        (pre, None)
    } else {
        let cmd = FetchCommand { key: pre.key, kind: FetchKind::More, cursor: issued_cursor(pre) };
        (FeedView { in_flight: Some(cmd), ..pre }, Some(cmd))
    }
}

/// What `refresh` does: switch to the feed that is already current.
pub open spec fn refresh_spec(pre: FeedView) -> (FeedView, Option<FetchCommand>) {
    switch_feed_spec(pre, pre.key)
}

/// A completion is applied only when it answers the fetch still in flight
/// and the feed it was issued for is still the current one; any other
/// (stale) result is discarded without touching the state.
pub open spec fn fetch_applies(pre: FeedView, done: FetchCommand) -> bool {
    &&& pre.in_flight matches Some(f) && key_eq(f.key, done.key)
    &&& key_eq(pre.key, done.key)
}

/// The cursor stored after a completed fetch: the token the provider
/// returned, or the start cursor when it returned none.
pub open spec fn cursor_after(after: Option<String>) -> Cursor {
    match after {
        Some(t) => Cursor::Token(t),
        None => Cursor::Start,
    }
}

/// What `complete_fetch` does. A stale result leaves the state unchanged. A
/// fetch issued from the start of a feed that finds the post list empty
/// replaces it; every other successful fetch appends. Success installs the
/// returned cursor and clears the error; failure records the message and
/// leaves posts and cursor as they were. Either way the controller is idle
/// again.
pub open spec fn complete_fetch_spec(
    pre: FeedView,
    done: FetchCommand,
    outcome: Result<FetchSuccess, String>,
) -> FeedView {
    if !fetch_applies(pre, done) {
        pre
    } else {
        match outcome {
            Ok(page) => FeedView {
                posts: if done.cursor is Start && pre.posts.len() == 0 {
                    page.posts@
                } else {
                    pre.posts + page.posts@
                },
                cursor: cursor_after(page.after),
                error: None,
                in_flight: None,
                ..pre
            },
            Err(message) => FeedView { error: Some(message), in_flight: None, ..pre },
        }
    }
}

/// The trigger cooldown is running at `now_ms`.
pub open spec fn cooldown_active(pre: FeedView, now_ms: u64) -> bool {
    pre.cooldown_until matches Some(t) && now_ms < t
}

/// What `trigger_load_more_if_near_bottom` does: nothing unless the caller
/// is within the threshold of the bottom, no fetch is in flight, and the
/// cooldown has lapsed; otherwise it starts a `load_more` fetch and arms the
/// cooldown.
pub open spec fn trigger_spec(pre: FeedView, distance_to_bottom: i64, now_ms: u64) -> (
    FeedView,
    Option<FetchCommand>,
) {
    if distance_to_bottom >= NEAR_BOTTOM_THRESHOLD || pre.in_flight is Some || cooldown_active(
        pre,
        now_ms,
    ) {
        (pre, None)
    } else {
        let stepped = load_more_spec(pre);
        (
            FeedView {
                cooldown_until: Some((now_ms + LOAD_MORE_COOLDOWN_MS) as u64),
                ..stepped.0
            },
            stepped.1,
        )
    }
}

/// What `begin_subscriptions_fetch` does: single-flight on the
/// subscribed-feed list, independently of the post fetches.
pub open spec fn begin_subscriptions_spec(pre: FeedView) -> (FeedView, bool) {
    if pre.fetching_subscriptions {
        (pre, false)
    } else {
        (FeedView { fetching_subscriptions: true, ..pre }, true)
    }
}

/// What `complete_subscriptions_fetch` does: success replaces the
/// subscribed-feed list and clears the recorded error, as every successful
/// operation does; failure records the message.
pub open spec fn complete_subscriptions_spec(
    pre: FeedView,
    outcome: Result<Vec<String>, String>,
) -> FeedView {
    match outcome {
        Ok(names) => FeedView {
            subscribed: names@,
            error: None,
            fetching_subscriptions: false,
            ..pre
        },
        Err(message) => FeedView {
            error: Some(message),
            fetching_subscriptions: false,
            ..pre
        },
    }
}

/// The lifecycle state shown to the renderer: fetching states take
/// precedence, then a recorded error, then idle.
pub open spec fn loading_state_of(v: FeedView) -> LoadingState {
    match v.in_flight {
        Some(cmd) => if cmd.kind is Initial {
            LoadingState::InitialLoading
        } else {
            LoadingState::LoadingMore
        },
        None => match v.error {
            Some(m) => LoadingState::Error(m),
            None => LoadingState::Idle,
        },
    }
}

/// The feed list the renderer offers: the permanent home entry first, then
/// the subscribed subreddits in the order the provider returned them.
pub open spec fn feed_entries_of(v: FeedView) -> Seq<FeedKey> {
    seq![FeedKey::Home] + v.subscribed.map_values(|s: String| FeedKey::Subreddit(s))
}

/// Owns the post list, pagination cursor, loading and error state of the
/// current feed, the subscribed-feed list, and the trigger cooldown. Every
/// operation is a decision from the current state: fetches themselves run
/// outside, and report back through `complete_fetch` and
/// `complete_subscriptions_fetch`.
pub struct FeedController {
    key: FeedKey,
    posts: Vec<Post>,
    cursor: Cursor,
    error: Option<String>,
    in_flight: Option<FetchCommand>,
    subscribed: Vec<String>,
    fetching_subscriptions: bool,
    cooldown_until: Option<u64>,
}

impl View for FeedController {
    type V = FeedView;

    closed spec fn view(&self) -> FeedView {
        FeedView {
            key: self.key,
            posts: self.posts@,
            cursor: self.cursor,
            error: self.error,
            in_flight: self.in_flight,
            subscribed: self.subscribed@,
            fetching_subscriptions: self.fetching_subscriptions,
            cooldown_until: self.cooldown_until,
        }
    }
}

impl FeedController {
    pub fn new() -> (c: FeedController)
        ensures
            c@ == initial_view(),
    {
        let c = FeedController {
            key: FeedKey::Home,
            posts: Vec::new(),
            cursor: Cursor::Start,
            error: None,
            in_flight: None,
            subscribed: Vec::new(),
            fetching_subscriptions: false,
            cooldown_until: None,
        };
        proof {
            assert(c@ =~= initial_view());
        }
        c
    }

    /// Drops the request while a fetch is in flight; otherwise clears the
    /// feed state and starts the initial fetch for `key`.
    pub fn switch_feed(&mut self, key: FeedKey) -> (cmd: Option<FetchCommand>)
        ensures
            final(self)@ == switch_feed_spec(old(self)@, key).0,
            cmd == switch_feed_spec(old(self)@, key).1,
    {
        if self.in_flight.is_some() {
            return None;
        }
        let cmd = FetchCommand { key: key.clone(), kind: FetchKind::Initial, cursor: Cursor::Start };
        self.key = key;
        self.posts = Vec::new();
        self.cursor = Cursor::Start;
        self.error = None;
        self.in_flight = Some(cmd.clone());
        proof {
            assert(self@ =~= switch_feed_spec(old(self)@, key).0);
        }
        Some(cmd)
    }

    /// Drops the request while a fetch is in flight; otherwise starts a
    /// fetch of the next page of the current feed at the stored cursor.
    pub fn load_more(&mut self) -> (cmd: Option<FetchCommand>)
        ensures
            final(self)@ == load_more_spec(old(self)@).0,
            cmd == load_more_spec(old(self)@).1,
    {
        if self.in_flight.is_some() {
            return None;
        }
        let issued = match &self.cursor {
            Cursor::Start => {
                if self.posts.len() > 0 {
                    Cursor::Unknown
                } else {
                    Cursor::Start
                }
            },
            Cursor::Token(t) => Cursor::Token(t.clone()),
            Cursor::Unknown => Cursor::Unknown,
        };
        let cmd = FetchCommand { key: self.key.clone(), kind: FetchKind::More, cursor: issued };
        self.in_flight = Some(cmd.clone());
        proof {
            assert(self@ =~= load_more_spec(old(self)@).0);
        }
        Some(cmd)
    }

    /// Switches to the feed that is already current.
    pub fn refresh(&mut self) -> (cmd: Option<FetchCommand>)
        ensures
            final(self)@ == refresh_spec(old(self)@).0,
            cmd == refresh_spec(old(self)@).1,
    {
        let key = self.key.clone();
        self.switch_feed(key)
    }

    /// Applies the outcome of the fetch `done`, or discards it when it is
    /// stale: when it does not answer the fetch still in flight for the
    /// feed that is still current.
    pub fn complete_fetch(&mut self, done: FetchCommand, outcome: Result<FetchSuccess, String>)
        ensures
            final(self)@ == complete_fetch_spec(old(self)@, done, outcome),
    {
        let applies = match &self.in_flight {
            Some(f) => f.key == done.key && self.key == done.key,
            None => false,
        };
        if !applies {
            return;
        }
        match outcome {
            Ok(page) => {
                let FetchSuccess { posts: mut fetched, after } = page;
                let replace = match &done.cursor {
                    Cursor::Start => self.posts.len() == 0,
                    _ => false,
                };
                if replace {
                    self.posts = fetched;
                } else {
                    self.posts.append(&mut fetched);
                }
                self.cursor = match after {
                    Some(t) => Cursor::Token(t),
                    None => Cursor::Start,
                };
                self.error = None;
                self.in_flight = None;
            },
            Err(message) => {
                self.error = Some(message);
                self.in_flight = None;
            },
        }
        proof {
            assert(self@ =~= complete_fetch_spec(old(self)@, done, outcome));
        }
    }

    /// The infinite-scroll decision: starts a `load_more` fetch when the
    /// caller reports the viewport within the threshold of the content's
    /// bottom, no fetch is in flight, and the cooldown has lapsed.
    pub fn trigger_load_more_if_near_bottom(&mut self, distance_to_bottom: i64, now_ms: u64) -> (cmd:
        Option<FetchCommand>)
        requires
            now_ms + LOAD_MORE_COOLDOWN_MS <= u64::MAX,
        ensures
            final(self)@ == trigger_spec(old(self)@, distance_to_bottom, now_ms).0,
            cmd == trigger_spec(old(self)@, distance_to_bottom, now_ms).1,
    {
        if distance_to_bottom >= NEAR_BOTTOM_THRESHOLD || self.in_flight.is_some() {
            return None;
        }
        let on_cooldown = match self.cooldown_until {
            Some(t) => now_ms < t,
            None => false,
        };
        if on_cooldown {
            return None;
        }
        let cmd = self.load_more();
        self.cooldown_until = Some(now_ms + LOAD_MORE_COOLDOWN_MS);
        proof {
            assert(self@ =~= trigger_spec(old(self)@, distance_to_bottom, now_ms).0);
        }
        cmd
    }

    /// Single-flight guard for the subscribed-feed list: returns whether the
    /// caller should perform the fetch.
    pub fn begin_subscriptions_fetch(&mut self) -> (go: bool)
        ensures
            final(self)@ == begin_subscriptions_spec(old(self)@).0,
            go == begin_subscriptions_spec(old(self)@).1,
    {
        if self.fetching_subscriptions {
            return false;
        }
        self.fetching_subscriptions = true;
        proof {
            assert(self@ =~= begin_subscriptions_spec(old(self)@).0);
        }
        true
    }

    /// Applies the outcome of a subscribed-feed fetch.
    pub fn complete_subscriptions_fetch(&mut self, outcome: Result<Vec<String>, String>)
        ensures
            final(self)@ == complete_subscriptions_spec(old(self)@, outcome),
    {
        match outcome {
            Ok(names) => {
                self.subscribed = names;
                self.error = None;
                self.fetching_subscriptions = false;
            },
            Err(message) => {
                self.error = Some(message);
                self.fetching_subscriptions = false;
            },
        }
        proof {
            assert(self@ =~= complete_subscriptions_spec(old(self)@, outcome));
        }
    }

    /// Clears the recorded error on explicit user dismissal.
    pub fn dismiss_error(&mut self)
        ensures
            final(self)@ == (FeedView { error: None, ..old(self)@ }),
    {
        self.error = None;
        proof {
            assert(self@ =~= (FeedView { error: None, ..old(self)@ }));
        }
    }

    pub fn posts(&self) -> (r: &Vec<Post>)
        ensures
            r@ == self@.posts,
    {
        &self.posts
    }

    pub fn current_feed(&self) -> (r: &FeedKey)
        ensures
            *r == self@.key,
    {
        &self.key
    }

    pub fn cursor(&self) -> (r: &Cursor)
        ensures
            *r == self@.cursor,
    {
        &self.cursor
    }

    pub fn error_message(&self) -> (r: &Option<String>)
        ensures
            *r == self@.error,
    {
        &self.error
    }

    pub fn is_fetching(&self) -> (r: bool)
        ensures
            r == (self@.in_flight is Some),
    {
        self.in_flight.is_some()
    }

    pub fn subscribed_feeds(&self) -> (r: &Vec<String>)
        ensures
            r@ == self@.subscribed,
    {
        &self.subscribed
    }

    pub fn loading_state(&self) -> (r: LoadingState)
        ensures
            r == loading_state_of(self@),
    {
        match &self.in_flight {
            Some(cmd) => match cmd.kind {
                FetchKind::Initial => LoadingState::InitialLoading,
                FetchKind::More => LoadingState::LoadingMore,
            },
            None => match &self.error {
                Some(m) => LoadingState::Error(m.clone()),
                None => LoadingState::Idle,
            },
        }
    }

    /// The feed list shown to the user: the permanent home entry, then the
    /// subscribed subreddits in provider order.
    pub fn feed_entries(&self) -> (r: Vec<FeedKey>)
        ensures
            r@ == feed_entries_of(self@),
    {
        let mut r: Vec<FeedKey> = Vec::new();
        r.push(FeedKey::Home);
        let mut i: usize = 0;
        while i < self.subscribed.len()
            invariant
                i <= self.subscribed@.len(),
                r@ == seq![FeedKey::Home] + self@.subscribed.take(i as int).map_values(
                    |s: String| FeedKey::Subreddit(s),
                ),
            decreases self.subscribed@.len() - i,
        {
            r.push(FeedKey::Subreddit(self.subscribed[i].clone()));
            proof {
                assert(self@.subscribed.take(i + 1).map_values(|s: String| FeedKey::Subreddit(s))
                    =~= self@.subscribed.take(i as int).map_values(
                    |s: String| FeedKey::Subreddit(s),
                ) + seq![FeedKey::Subreddit(self@.subscribed[i as int])]);
            }
            i = i + 1;
        }
        proof {
            assert(self@.subscribed.take(self@.subscribed.len() as int) =~= self@.subscribed);
            assert(r@ =~= feed_entries_of(self@));
        }
        r
    }

    /// The renderer scrolls back to the top when the last operation failed,
    /// or when there is nothing to show outside the settings form.
    pub fn should_reset_scroll(&self, show_settings: bool) -> (r: bool)
        ensures
            r == (self@.error is Some || (self@.posts.len() == 0 && !show_settings)),
    {
        let has_error = match &self.error {
            Some(_) => true,
            None => false,
        };
        has_error || (self.posts.len() == 0 && !show_settings)
    }
}

/// Feed keys are equal to themselves.
pub proof fn lemma_key_eq_reflexive(k: FeedKey)
    ensures
        key_eq(k, k),
{
}

/// Single-flight, the dropping half: while a fetch is in flight, every feed
/// command is a no-op — the state is unchanged and no second fetch starts.
pub proof fn lemma_single_flight_busy(
    pre: FeedView,
    key: FeedKey,
    distance_to_bottom: i64,
    now_ms: u64,
)
    requires
        pre.in_flight is Some,
    ensures
        switch_feed_spec(pre, key) == (pre, None::<FetchCommand>),
        load_more_spec(pre) == (pre, None::<FetchCommand>),
        refresh_spec(pre) == (pre, None::<FetchCommand>),
        trigger_spec(pre, distance_to_bottom, now_ms) == (pre, None::<FetchCommand>),
{
}

/// Single-flight, the arming half: a command that starts a fetch leaves the
/// controller busy, so by the dropping half every further command is dropped
/// until that fetch completes.
pub proof fn lemma_fetch_makes_busy(
    pre: FeedView,
    key: FeedKey,
    distance_to_bottom: i64,
    now_ms: u64,
)
    requires
        pre.in_flight is None,
    ensures
        switch_feed_spec(pre, key).0.in_flight is Some,
        switch_feed_spec(pre, key).1 is Some,
        load_more_spec(pre).0.in_flight is Some,
        load_more_spec(pre).1 is Some,
        refresh_spec(pre).0.in_flight is Some,
        refresh_spec(pre).1 is Some,
        trigger_spec(pre, distance_to_bottom, now_ms).1 is Some ==> trigger_spec(
            pre,
            distance_to_bottom,
            now_ms,
        ).0.in_flight is Some,
{
}

/// Replace versus append: a completed fetch that was issued from the start
/// of a feed and finds the post list empty replaces the list; every other
/// completed fetch appends, keeping the prior posts first and in order.
pub proof fn lemma_replace_vs_append(pre: FeedView, done: FetchCommand, page: FetchSuccess)
    requires
        fetch_applies(pre, done),
    ensures
        (done.cursor is Start && pre.posts.len() == 0) ==> complete_fetch_spec(
            pre,
            done,
            Ok(page),
        ).posts == page.posts@,
        !(done.cursor is Start && pre.posts.len() == 0) ==> complete_fetch_spec(
            pre,
            done,
            Ok(page),
        ).posts == pre.posts + page.posts@,
{
}

/// Stale-result discard: a completion tagged with a feed other than the
/// current one leaves the state untouched, whatever it carried.
pub proof fn lemma_stale_result_discarded(
    pre: FeedView,
    done: FetchCommand,
    outcome: Result<FetchSuccess, String>,
)
    requires
        !key_eq(pre.key, done.key),
    ensures
        complete_fetch_spec(pre, done, outcome) == pre,
{
}

/// Cursor reset: a switch puts the cursor at the start — commands dropped
/// while the fetch is in flight leave the state, and so the cursor, as it is
/// — and the completion installs exactly the cursor the fetch returned.
pub proof fn lemma_cursor_reset(pre: FeedView, key: FeedKey, page: FetchSuccess)
    requires
        pre.in_flight is None,
    ensures
        switch_feed_spec(pre, key).0.cursor is Start,
        switch_feed_spec(pre, key).1 matches Some(cmd) ==> complete_fetch_spec(
            switch_feed_spec(pre, key).0,
            cmd,
            Ok(page),
        ).cursor == cursor_after(page.after),
{
    lemma_key_eq_reflexive(key);
}

/// A load-more fetch issued by the controller over posts already shown can
/// never replace them: its completion appends. In particular the `Unknown`
/// marker keeps a fetch issued without a token from presenting itself as a
/// fresh load of the feed.
pub proof fn lemma_load_more_never_wipes(pre: FeedView, page: FetchSuccess)
    requires
        pre.in_flight is None,
        pre.posts.len() > 0,
    ensures
        load_more_spec(pre).1 matches Some(cmd) ==> complete_fetch_spec(
            load_more_spec(pre).0,
            cmd,
            Ok(page),
        ).posts == pre.posts + page.posts@,
{
    lemma_key_eq_reflexive(pre.key);
}

/// Every in-flight fetch is tagged with the feed that is current.
pub open spec fn in_flight_is_current(v: FeedView) -> bool {
    v.in_flight matches Some(f) ==> key_eq(f.key, v.key)
}

/// The operations never leave a fetch for another feed in flight: the tag
/// invariant holds at construction and is preserved by every operation. A
/// completion that fails the tag check can therefore only be one from
/// before the feed last changed, and it is discarded.
pub proof fn lemma_operations_preserve_tag(
    pre: FeedView,
    key: FeedKey,
    distance_to_bottom: i64,
    now_ms: u64,
    done: FetchCommand,
    fetch_outcome: Result<FetchSuccess, String>,
    subscriptions_outcome: Result<Vec<String>, String>,
)
    requires
        in_flight_is_current(pre),
    ensures
        in_flight_is_current(initial_view()),
        in_flight_is_current(switch_feed_spec(pre, key).0),
        in_flight_is_current(load_more_spec(pre).0),
        in_flight_is_current(refresh_spec(pre).0),
        in_flight_is_current(trigger_spec(pre, distance_to_bottom, now_ms).0),
        in_flight_is_current(complete_fetch_spec(pre, done, fetch_outcome)),
        in_flight_is_current(begin_subscriptions_spec(pre).0),
        in_flight_is_current(complete_subscriptions_spec(pre, subscriptions_outcome)),
{
    lemma_key_eq_reflexive(key);
    lemma_key_eq_reflexive(pre.key);
}

/// Trigger cooldown: once a trigger fires at `t1`, a second trigger before
/// `t1 + LOAD_MORE_COOLDOWN_MS` issues no fetch — neither while the first
/// fetch is in flight, nor once its completion has arrived in the window.
pub proof fn lemma_trigger_cooldown(
    pre: FeedView,
    d1: i64,
    t1: u64,
    d2: i64,
    t2: u64,
    done: FetchCommand,
    outcome: Result<FetchSuccess, String>,
)
    requires
        t1 + LOAD_MORE_COOLDOWN_MS <= u64::MAX,
        trigger_spec(pre, d1, t1).1 is Some,
        t2 < t1 + LOAD_MORE_COOLDOWN_MS,
    ensures
        trigger_spec(trigger_spec(pre, d1, t1).0, d2, t2).1 is None,
        trigger_spec(complete_fetch_spec(trigger_spec(pre, d1, t1).0, done, outcome), d2, t2).1
            is None,
{
}

} // verus!
