//! The set of named capability flags an installed app may request, and its
//! comma-joined string form.

use vstd::prelude::*;
use vstd::string::StrSliceExecFns;
use vstd::string::StringExecFns;

verus! {

/// A fixed set of named boolean capability flags, one per supported
/// permission. Serializes to a comma-joined list of the names of the flags
/// that are set, in declaration order.
#[derive(Debug, Copy, Clone, PartialEq, Eq, Structural)]
pub struct Scopes {
    ///
    pub identity: bool,
    ///
    pub edit: bool,
    ///
    pub flair: bool,
    ///
    pub history: bool,
    ///
    pub modconfig: bool,
    ///
    pub modflair: bool,
    ///
    pub modlog: bool,
    ///
    pub modposts: bool,
    ///
    pub modwiki: bool,
    ///
    pub mysubreddits: bool,
    ///
    pub privatemessages: bool,
    ///
    pub read: bool,
    ///
    pub report: bool,
    ///
    pub save: bool,
    ///
    pub submit: bool,
    ///
    pub subscribe: bool,
    ///
    pub vote: bool,
    ///
    pub wikiedit: bool,
    ///
    pub wikiread: bool,
    ///
    pub account: bool,
}

/// The number of scope flags.
pub open spec fn scope_count() -> int {
    20
}

/// The name of the scope flag at the given position, in declaration order.
pub open spec fn scope_name(i: int) -> Seq<char> {
    if i == 0 {
        "identity"@
    } else if i == 1 {
        "edit"@
    } else if i == 2 {
        "flair"@
    } else if i == 3 {
        "history"@
    } else if i == 4 {
        "modconfig"@
    } else if i == 5 {
        "modflair"@
    } else if i == 6 {
        "modlog"@
    } else if i == 7 {
        "modposts"@
    } else if i == 8 {
        "modwiki"@
    } else if i == 9 {
        "mysubreddits"@
    } else if i == 10 {
        "privatemessages"@
    } else if i == 11 {
        "read"@
    } else if i == 12 {
        "report"@
    } else if i == 13 {
        "save"@
    } else if i == 14 {
        "submit"@
    } else if i == 15 {
        "subscribe"@
    } else if i == 16 {
        "vote"@
    } else if i == 17 {
        "wikiedit"@
    } else if i == 18 {
        "wikiread"@
    } else {
        "account"@
    }
}

/// The scope flag at the given position, in declaration order.
pub open spec fn scope_flag(s: Scopes, i: int) -> bool {
    if i == 0 {
        s.identity
    } else if i == 1 {
        s.edit
    } else if i == 2 {
        s.flair
    } else if i == 3 {
        s.history
    } else if i == 4 {
        s.modconfig
    } else if i == 5 {
        s.modflair
    } else if i == 6 {
        s.modlog
    } else if i == 7 {
        s.modposts
    } else if i == 8 {
        s.modwiki
    } else if i == 9 {
        s.mysubreddits
    } else if i == 10 {
        s.privatemessages
    } else if i == 11 {
        s.read
    } else if i == 12 {
        s.report
    } else if i == 13 {
        s.save
    } else if i == 14 {
        s.submit
    } else if i == 15 {
        s.subscribe
    } else if i == 16 {
        s.vote
    } else if i == 17 {
        s.wikiedit
    } else if i == 18 {
        s.wikiread
    } else {
        s.account
    }
}

/// The names of the flags set in `s` among the first `i` positions, in
/// declaration order.
#[verifier::opaque]
pub open spec fn enabled_upto(s: Scopes, i: int) -> Seq<Seq<char>>
    decreases i,
{
    if i <= 0 {
        Seq::<Seq<char>>::empty()
    } else if scope_flag(s, i - 1) {
        enabled_upto(s, i - 1).push(scope_name(i - 1))
    } else {
        enabled_upto(s, i - 1)
    }
}

/// Pieces joined with a single comma between neighbours.
pub open spec fn join_commas(l: Seq<Seq<char>>) -> Seq<char>
    decreases l.len(),
{
    if l.len() == 0 {
        Seq::<char>::empty()
    } else if l.len() == 1 {
        l[0]
    } else {
        l[0] + seq![','] + join_commas(l.drop_first())
    }
}

/// The comma-joined string form of a scope set: the names of the set
/// flags, in declaration order.
pub open spec fn spec_scopes_string(s: Scopes) -> Seq<char> {
    join_commas(enabled_upto(s, scope_count()))
}

/// Appending a piece to a joined list appends a comma and the piece, or
/// just the piece when the list was empty.
pub proof fn lemma_join_commas_push(l: Seq<Seq<char>>, x: Seq<char>)
    ensures
        join_commas(l.push(x)) == if l.len() == 0 {
            x
        } else {
            join_commas(l) + seq![','] + x
        },
    decreases l.len(),
{
    if l.len() == 0 {
        assert(l.push(x).len() == 1);
        assert(l.push(x)[0] == x);
    } else if l.len() == 1 {
        assert(l.push(x).drop_first() =~= seq![x]);
        assert(join_commas(seq![x]) == x);
        assert(l.push(x)[0] == l[0]);
    } else {
        assert(l.push(x).drop_first() =~= l.drop_first().push(x));
        lemma_join_commas_push(l.drop_first(), x);
        assert(l.push(x)[0] == l[0]);
        assert((l[0] + seq![','] + (join_commas(l.drop_first()) + seq![','] + x)) =~= ((l[0]
            + seq![','] + join_commas(l.drop_first())) + seq![','] + x));
    }
}

/// Joins the given pieces with commas.
fn join_with_commas(names: &Vec<&'static str>) -> (r: String)
    ensures
        r@ == join_commas(names@.map_values(|x: &str| x@)),
{
    let mut out = String::new();
    let n = names.len();
    let mut i: usize = 0;
    proof {
        assert(names@.subrange(0, 0).map_values(|x: &str| x@) =~= Seq::<Seq<char>>::empty());
    }
    while i < n
        invariant
            0 <= i <= n == names@.len(),
            out@ == join_commas(names@.subrange(0, i as int).map_values(|x: &str| x@)),
        decreases n - i,
    {
        let ghost pre = names@.subrange(0, i as int).map_values(|x: &str| x@);
        if i > 0 {
            out.append(",");
        }
        out.append(names[i]);
        proof {
            reveal_strlit(",");
            assert(","@ =~= seq![',']);
            assert(names@.subrange(0, i + 1).map_values(|x: &str| x@) =~= pre.push(
                names@[i as int]@,
            ));
            lemma_join_commas_push(pre, names@[i as int]@);
            if i == 0 {
                assert(pre.len() == 0);
            }
        }
        i += 1;
    }
    proof {
        assert(names@.subrange(0, n as int) =~= names@);
    }
    out
}


/// The scope set with no flags set.
pub open spec fn scopes_none() -> Scopes {
    Scopes {
        identity: false,
        edit: false,
        flair: false,
        history: false,
        modconfig: false,
        modflair: false,
        modlog: false,
        modposts: false,
        modwiki: false,
        mysubreddits: false,
        privatemessages: false,
        read: false,
        report: false,
        save: false,
        submit: false,
        subscribe: false,
        vote: false,
        wikiedit: false,
        wikiread: false,
        account: false,
    }
}

/// `acc` with the scope flag at position `i` set.
pub open spec fn set_scope_flag(acc: Scopes, i: int) -> Scopes {
    if i == 0 {
        Scopes { identity: true, ..acc }
    } else if i == 1 {
        Scopes { edit: true, ..acc }
    } else if i == 2 {
        Scopes { flair: true, ..acc }
    } else if i == 3 {
        Scopes { history: true, ..acc }
    } else if i == 4 {
        Scopes { modconfig: true, ..acc }
    } else if i == 5 {
        Scopes { modflair: true, ..acc }
    } else if i == 6 {
        Scopes { modlog: true, ..acc }
    } else if i == 7 {
        Scopes { modposts: true, ..acc }
    } else if i == 8 {
        Scopes { modwiki: true, ..acc }
    } else if i == 9 {
        Scopes { mysubreddits: true, ..acc }
    } else if i == 10 {
        Scopes { privatemessages: true, ..acc }
    } else if i == 11 {
        Scopes { read: true, ..acc }
    } else if i == 12 {
        Scopes { report: true, ..acc }
    } else if i == 13 {
        Scopes { save: true, ..acc }
    } else if i == 14 {
        Scopes { submit: true, ..acc }
    } else if i == 15 {
        Scopes { subscribe: true, ..acc }
    } else if i == 16 {
        Scopes { vote: true, ..acc }
    } else if i == 17 {
        Scopes { wikiedit: true, ..acc }
    } else if i == 18 {
        Scopes { wikiread: true, ..acc }
    } else {
        Scopes { account: true, ..acc }
    }
}

/// `acc` after reading one comma-separated piece: a piece that is a scope
/// name from position `k` on sets that flag; any other piece changes
/// nothing.
#[verifier::opaque]
pub open spec fn apply_scope_piece_from(acc: Scopes, p: Seq<char>, k: int) -> Scopes
    decreases scope_count() - k,
{
    if k < 0 || k >= scope_count() {
        acc
    } else if p == scope_name(k) {
        set_scope_flag(acc, k)
    } else {
        apply_scope_piece_from(acc, p, k + 1)
    }
}

/// The index of the first comma in `s` at or after `i`, or the length of
/// `s` when there is none.
pub open spec fn first_comma_at(s: Seq<char>, i: int) -> int
    decreases s.len() - i,
{
    if i < 0 || i >= s.len() {
        s.len() as int
    } else if s[i] == ',' {
        i
    } else {
        first_comma_at(s, i + 1)
    }
}

/// `first_comma_at` yields an index between its starting point and the
/// length.
pub proof fn lemma_first_comma_at_bounds(s: Seq<char>, i: int)
    requires
        0 <= i <= s.len(),
    ensures
        i <= first_comma_at(s, i) <= s.len(),
    decreases s.len() - i,
{
    if i < s.len() && s[i] != ',' {
        lemma_first_comma_at_bounds(s, i + 1);
    }
}

proof fn lemma_first_comma_at_found(s: Seq<char>, k: int, i: int)
    requires
        0 <= k <= i <= s.len(),
        forall|j: int| k <= j < i ==> s[j] != ',',
        i < s.len() ==> s[i] == ',',
    ensures
        first_comma_at(s, k) == if i < s.len() {
            i
        } else {
            s.len() as int
        },
    decreases i - k,
{
    if k < i {
        lemma_first_comma_at_found(s, k + 1, i);
    }
}

/// `acc` after reading the comma-separated pieces of `s` from position `i`
/// on, each piece as `apply_scope_piece_from` describes.
pub open spec fn parse_scopes_from(s: Seq<char>, i: int, acc: Scopes) -> Scopes
    decreases s.len() + 1 - i,
    via parse_scopes_from_decreases
{
    if i < 0 || i > s.len() {
        acc
    } else {
        let a = first_comma_at(s, i);
        let acc2 = apply_scope_piece_from(acc, s.subrange(i, a), 0);
        if a >= s.len() {
            acc2
        } else {
            parse_scopes_from(s, a + 1, acc2)
        }
    }
}

#[via_fn]
proof fn parse_scopes_from_decreases(s: Seq<char>, i: int, acc: Scopes) {
    if 0 <= i <= s.len() {
        lemma_first_comma_at_bounds(s, i);
    }
}

/// The scope set read from a comma-joined list of scope names: each piece
/// that is a scope name sets that flag, and any other piece is ignored.
pub open spec fn spec_parse_scopes(s: Seq<char>) -> Scopes {
    parse_scopes_from(s, 0, scopes_none())
}

/// True exactly when the piece `[from, to)` of `s` holds the same
/// characters as `name`.
fn str_eq_range(s: &str, from: usize, to: usize, name: &str) -> (r: bool)
    requires
        from <= to <= s@.len(),
    ensures
        r == (s@.subrange(from as int, to as int) == name@),
{
    let m = name.unicode_len();
    if to - from != m {
        proof {
            assert(s@.subrange(from as int, to as int).len() != name@.len());
        }
        return false;
    }
    let mut j: usize = 0;
    while j < m
        invariant
            0 <= j <= m == name@.len(),
            from + m <= to <= s@.len(),
            to - from == m,
            forall|k: int| 0 <= k < j ==> s@[from + k] == name@[k],
        decreases m - j,
    {
        if s.get_char(from + j) != name.get_char(j) {
            proof {
                assert(s@.subrange(from as int, to as int)[j as int] != name@[j as int]);
            }
            return false;
        }
        j += 1;
    }
    proof {
        assert(s@.subrange(from as int, to as int) =~= name@);
    }
    true
}

impl Scopes {
    /// The scope set with no flags set.
    pub fn empty() -> (r: Scopes)
        ensures
            !r.identity && !r.edit && !r.flair && !r.history && !r.modconfig && !r.modflair
                && !r.modlog && !r.modposts && !r.modwiki && !r.mysubreddits
                && !r.privatemessages && !r.read && !r.report && !r.save && !r.submit
                && !r.subscribe && !r.vote && !r.wikiedit && !r.wikiread && !r.account,
    {
        Scopes {
            identity: false,
            edit: false,
            flair: false,
            history: false,
            modconfig: false,
            modflair: false,
            modlog: false,
            modposts: false,
            modwiki: false,
            mysubreddits: false,
            privatemessages: false,
            read: false,
            report: false,
            save: false,
            submit: false,
            subscribe: false,
            vote: false,
            wikiedit: false,
            wikiread: false,
            account: false,
        }
    }

    /// The scope set with every flag set.
    pub fn all() -> (r: Scopes)
        ensures
            r.identity && r.edit && r.flair && r.history && r.modconfig && r.modflair
                && r.modlog && r.modposts && r.modwiki && r.mysubreddits && r.privatemessages
                && r.read && r.report && r.save && r.submit && r.subscribe && r.vote
                && r.wikiedit && r.wikiread && r.account,
    {
        Scopes {
            identity: true,
            edit: true,
            flair: true,
            history: true,
            modconfig: true,
            modflair: true,
            modlog: true,
            modposts: true,
            modwiki: true,
            mysubreddits: true,
            privatemessages: true,
            read: true,
            report: true,
            save: true,
            submit: true,
            subscribe: true,
            vote: true,
            wikiedit: true,
            wikiread: true,
            account: true,
        }
    }

    /// The scope set holding the flags that `self` and `other` both hold.
    pub fn and(self, other: Scopes) -> (r: Scopes)
        ensures
            r == (Scopes {
                identity: self.identity && other.identity,
                edit: self.edit && other.edit,
                flair: self.flair && other.flair,
                history: self.history && other.history,
                modconfig: self.modconfig && other.modconfig,
                modflair: self.modflair && other.modflair,
                modlog: self.modlog && other.modlog,
                modposts: self.modposts && other.modposts,
                modwiki: self.modwiki && other.modwiki,
                mysubreddits: self.mysubreddits && other.mysubreddits,
                privatemessages: self.privatemessages && other.privatemessages,
                read: self.read && other.read,
                report: self.report && other.report,
                save: self.save && other.save,
                submit: self.submit && other.submit,
                subscribe: self.subscribe && other.subscribe,
                vote: self.vote && other.vote,
                wikiedit: self.wikiedit && other.wikiedit,
                wikiread: self.wikiread && other.wikiread,
                account: self.account && other.account,
            }),
    {
        Scopes {
            identity: self.identity && other.identity,
            edit: self.edit && other.edit,
            flair: self.flair && other.flair,
            history: self.history && other.history,
            modconfig: self.modconfig && other.modconfig,
            modflair: self.modflair && other.modflair,
            modlog: self.modlog && other.modlog,
            modposts: self.modposts && other.modposts,
            modwiki: self.modwiki && other.modwiki,
            mysubreddits: self.mysubreddits && other.mysubreddits,
            privatemessages: self.privatemessages && other.privatemessages,
            read: self.read && other.read,
            report: self.report && other.report,
            save: self.save && other.save,
            submit: self.submit && other.submit,
            subscribe: self.subscribe && other.subscribe,
            vote: self.vote && other.vote,
            wikiedit: self.wikiedit && other.wikiedit,
            wikiread: self.wikiread && other.wikiread,
            account: self.account && other.account,
        }
    }

    /// The scope set holding the flags that `self` or `other` holds.
    pub fn or(self, other: Scopes) -> (r: Scopes)
        ensures
            r == (Scopes {
                identity: self.identity || other.identity,
                edit: self.edit || other.edit,
                flair: self.flair || other.flair,
                history: self.history || other.history,
                modconfig: self.modconfig || other.modconfig,
                modflair: self.modflair || other.modflair,
                modlog: self.modlog || other.modlog,
                modposts: self.modposts || other.modposts,
                modwiki: self.modwiki || other.modwiki,
                mysubreddits: self.mysubreddits || other.mysubreddits,
                privatemessages: self.privatemessages || other.privatemessages,
                read: self.read || other.read,
                report: self.report || other.report,
                save: self.save || other.save,
                submit: self.submit || other.submit,
                subscribe: self.subscribe || other.subscribe,
                vote: self.vote || other.vote,
                wikiedit: self.wikiedit || other.wikiedit,
                wikiread: self.wikiread || other.wikiread,
                account: self.account || other.account,
            }),
    {
        Scopes {
            identity: self.identity || other.identity,
            edit: self.edit || other.edit,
            flair: self.flair || other.flair,
            history: self.history || other.history,
            modconfig: self.modconfig || other.modconfig,
            modflair: self.modflair || other.modflair,
            modlog: self.modlog || other.modlog,
            modposts: self.modposts || other.modposts,
            modwiki: self.modwiki || other.modwiki,
            mysubreddits: self.mysubreddits || other.mysubreddits,
            privatemessages: self.privatemessages || other.privatemessages,
            read: self.read || other.read,
            report: self.report || other.report,
            save: self.save || other.save,
            submit: self.submit || other.submit,
            subscribe: self.subscribe || other.subscribe,
            vote: self.vote || other.vote,
            wikiedit: self.wikiedit || other.wikiedit,
            wikiread: self.wikiread || other.wikiread,
            account: self.account || other.account,
        }
    }

    /// The names of the flags set in `self`, in declaration order.
    fn enabled_names_a(&self, v: &mut Vec<&'static str>)
        requires
            old(v)@.map_values(|x: &str| x@) == enabled_upto(*self, 0),
        ensures
            final(v)@.map_values(|x: &str| x@) == enabled_upto(*self, 5),
    {
        if self.identity {
            v.push("identity");
        }
        proof {
            reveal_with_fuel(enabled_upto, 2);
            assert(v@.map_values(|x: &str| x@) =~= enabled_upto(*self, 1));
        }
        if self.edit {
            v.push("edit");
        }
        proof {
            reveal_with_fuel(enabled_upto, 2);
            assert(v@.map_values(|x: &str| x@) =~= enabled_upto(*self, 2));
        }
        if self.flair {
            v.push("flair");
        }
        proof {
            reveal_with_fuel(enabled_upto, 2);
            assert(v@.map_values(|x: &str| x@) =~= enabled_upto(*self, 3));
        }
        if self.history {
            v.push("history");
        }
        proof {
            reveal_with_fuel(enabled_upto, 2);
            assert(v@.map_values(|x: &str| x@) =~= enabled_upto(*self, 4));
        }
        if self.modconfig {
            v.push("modconfig");
        }
        proof {
            reveal_with_fuel(enabled_upto, 2);
            assert(v@.map_values(|x: &str| x@) =~= enabled_upto(*self, 5));
        }
    }

    fn enabled_names_b(&self, v: &mut Vec<&'static str>)
        requires
            old(v)@.map_values(|x: &str| x@) == enabled_upto(*self, 5),
        ensures
            final(v)@.map_values(|x: &str| x@) == enabled_upto(*self, 10),
    {
        if self.modflair {
            v.push("modflair");
        }
        proof {
            reveal_with_fuel(enabled_upto, 2);
            assert(v@.map_values(|x: &str| x@) =~= enabled_upto(*self, 6));
        }
        if self.modlog {
            v.push("modlog");
        }
        proof {
            reveal_with_fuel(enabled_upto, 2);
            assert(v@.map_values(|x: &str| x@) =~= enabled_upto(*self, 7));
        }
        if self.modposts {
            v.push("modposts");
        }
        proof {
            reveal_with_fuel(enabled_upto, 2);
            assert(v@.map_values(|x: &str| x@) =~= enabled_upto(*self, 8));
        }
        if self.modwiki {
            v.push("modwiki");
        }
        proof {
            reveal_with_fuel(enabled_upto, 2);
            assert(v@.map_values(|x: &str| x@) =~= enabled_upto(*self, 9));
        }
        if self.mysubreddits {
            v.push("mysubreddits");
        }
        proof {
            reveal_with_fuel(enabled_upto, 2);
            assert(v@.map_values(|x: &str| x@) =~= enabled_upto(*self, 10));
        }
    }

    fn enabled_names_c(&self, v: &mut Vec<&'static str>)
        requires
            old(v)@.map_values(|x: &str| x@) == enabled_upto(*self, 10),
        ensures
            final(v)@.map_values(|x: &str| x@) == enabled_upto(*self, 15),
    {
        if self.privatemessages {
            v.push("privatemessages");
        }
        proof {
            reveal_with_fuel(enabled_upto, 2);
            assert(v@.map_values(|x: &str| x@) =~= enabled_upto(*self, 11));
        }
        if self.read {
            v.push("read");
        }
        proof {
            reveal_with_fuel(enabled_upto, 2);
            assert(v@.map_values(|x: &str| x@) =~= enabled_upto(*self, 12));
        }
        if self.report {
            v.push("report");
        }
        proof {
            reveal_with_fuel(enabled_upto, 2);
            assert(v@.map_values(|x: &str| x@) =~= enabled_upto(*self, 13));
        }
        if self.save {
            v.push("save");
        }
        proof {
            reveal_with_fuel(enabled_upto, 2);
            assert(v@.map_values(|x: &str| x@) =~= enabled_upto(*self, 14));
        }
        if self.submit {
            v.push("submit");
        }
        proof {
            reveal_with_fuel(enabled_upto, 2);
            assert(v@.map_values(|x: &str| x@) =~= enabled_upto(*self, 15));
        }
    }

    fn enabled_names_d(&self, v: &mut Vec<&'static str>)
        requires
            old(v)@.map_values(|x: &str| x@) == enabled_upto(*self, 15),
        ensures
            final(v)@.map_values(|x: &str| x@) == enabled_upto(*self, 20),
    {
        if self.subscribe {
            v.push("subscribe");
        }
        proof {
            reveal_with_fuel(enabled_upto, 2);
            assert(v@.map_values(|x: &str| x@) =~= enabled_upto(*self, 16));
        }
        if self.vote {
            v.push("vote");
        }
        proof {
            reveal_with_fuel(enabled_upto, 2);
            assert(v@.map_values(|x: &str| x@) =~= enabled_upto(*self, 17));
        }
        if self.wikiedit {
            v.push("wikiedit");
        }
        proof {
            reveal_with_fuel(enabled_upto, 2);
            assert(v@.map_values(|x: &str| x@) =~= enabled_upto(*self, 18));
        }
        if self.wikiread {
            v.push("wikiread");
        }
        proof {
            reveal_with_fuel(enabled_upto, 2);
            assert(v@.map_values(|x: &str| x@) =~= enabled_upto(*self, 19));
        }
        if self.account {
            v.push("account");
        }
        proof {
            reveal_with_fuel(enabled_upto, 2);
            assert(v@.map_values(|x: &str| x@) =~= enabled_upto(*self, 20));
        }
    }

    /// The names of the flags set in `self`, in declaration order.
    fn enabled_names(&self) -> (r: Vec<&'static str>)
        ensures
            r@.map_values(|x: &str| x@) == enabled_upto(*self, scope_count()),
    {
        let mut v: Vec<&'static str> = Vec::new();
        proof {
            reveal_with_fuel(enabled_upto, 2);
            assert(v@.map_values(|x: &str| x@) =~= enabled_upto(*self, 0));
        }
        self.enabled_names_a(&mut v);
        self.enabled_names_b(&mut v);
        self.enabled_names_c(&mut v);
        self.enabled_names_d(&mut v);
        v
    }


    fn apply_piece_d(self, s: &str, from: usize, to: usize) -> (r: Scopes)
        requires
            from <= to <= s@.len(),
        ensures
            r == apply_scope_piece_from(self, s@.subrange(from as int, to as int), 15),
    {
        proof {
            reveal_with_fuel(apply_scope_piece_from, 6);
        }
        if str_eq_range(s, from, to, "subscribe") {
            Scopes { subscribe: true, ..self }
        } else if str_eq_range(s, from, to, "vote") {
            Scopes { vote: true, ..self }
        } else if str_eq_range(s, from, to, "wikiedit") {
            Scopes { wikiedit: true, ..self }
        } else if str_eq_range(s, from, to, "wikiread") {
            Scopes { wikiread: true, ..self }
        } else if str_eq_range(s, from, to, "account") {
            Scopes { account: true, ..self }
        } else {
            self
        }
    }

    fn apply_piece_c(self, s: &str, from: usize, to: usize) -> (r: Scopes)
        requires
            from <= to <= s@.len(),
        ensures
            r == apply_scope_piece_from(self, s@.subrange(from as int, to as int), 10),
    {
        proof {
            reveal_with_fuel(apply_scope_piece_from, 6);
        }
        if str_eq_range(s, from, to, "privatemessages") {
            Scopes { privatemessages: true, ..self }
        } else if str_eq_range(s, from, to, "read") {
            Scopes { read: true, ..self }
        } else if str_eq_range(s, from, to, "report") {
            Scopes { report: true, ..self }
        } else if str_eq_range(s, from, to, "save") {
            Scopes { save: true, ..self }
        } else if str_eq_range(s, from, to, "submit") {
            Scopes { submit: true, ..self }
        } else {
            self.apply_piece_d(s, from, to)
        }
    }

    fn apply_piece_b(self, s: &str, from: usize, to: usize) -> (r: Scopes)
        requires
            from <= to <= s@.len(),
        ensures
            r == apply_scope_piece_from(self, s@.subrange(from as int, to as int), 5),
    {
        proof {
            reveal_with_fuel(apply_scope_piece_from, 6);
        }
        if str_eq_range(s, from, to, "modflair") {
            Scopes { modflair: true, ..self }
        } else if str_eq_range(s, from, to, "modlog") {
            Scopes { modlog: true, ..self }
        } else if str_eq_range(s, from, to, "modposts") {
            Scopes { modposts: true, ..self }
        } else if str_eq_range(s, from, to, "modwiki") {
            Scopes { modwiki: true, ..self }
        } else if str_eq_range(s, from, to, "mysubreddits") {
            Scopes { mysubreddits: true, ..self }
        } else {
            self.apply_piece_c(s, from, to)
        }
    }

    fn apply_piece(self, s: &str, from: usize, to: usize) -> (r: Scopes)
        requires
            from <= to <= s@.len(),
        ensures
            r == apply_scope_piece_from(self, s@.subrange(from as int, to as int), 0),
    {
        proof {
            reveal_with_fuel(apply_scope_piece_from, 6);
        }
        if str_eq_range(s, from, to, "identity") {
            Scopes { identity: true, ..self }
        } else if str_eq_range(s, from, to, "edit") {
            Scopes { edit: true, ..self }
        } else if str_eq_range(s, from, to, "flair") {
            Scopes { flair: true, ..self }
        } else if str_eq_range(s, from, to, "history") {
            Scopes { history: true, ..self }
        } else if str_eq_range(s, from, to, "modconfig") {
            Scopes { modconfig: true, ..self }
        } else {
            self.apply_piece_b(s, from, to)
        }
    }

    /// Reads a scope set back from a comma-joined list of scope names, as
    /// `spec_parse_scopes` describes: each piece that is a scope name sets
    /// that flag, and any other piece is ignored.
    pub fn parse(s: &str) -> (r: Scopes)
        ensures
            r == spec_parse_scopes(s@),
    {
        let n = s.unicode_len();
        let mut acc = Scopes::empty();
        let mut pos: usize = 0;
        proof {
            assert(acc == scopes_none());
        }
        while pos <= n
            invariant
                0 <= pos <= n == s@.len(),
                spec_parse_scopes(s@) == parse_scopes_from(s@, pos as int, acc),
            decreases n - pos,
        {
            let mut a: usize = pos;
            while a < n && s.get_char(a) != ','
                invariant
                    pos <= a <= n == s@.len(),
                    forall|j: int| pos <= j < a ==> s@[j] != ',',
                decreases n - a,
            {
                a += 1;
            }
            proof {
                lemma_first_comma_at_found(s@, pos as int, a as int);
            }
            let ghost acc0 = acc;
            acc = acc.apply_piece(s, pos, a);
            proof {
                assert(first_comma_at(s@, pos as int) == a as int);
                assert(parse_scopes_from(s@, pos as int, acc0) == if a as int >= s@.len() {
                    acc
                } else {
                    parse_scopes_from(s@, a + 1, acc)
                });
            }
            if a == n {
                return acc;
            }
            pos = a + 1;
        }
        acc
    }

    /// The comma-joined string form of this scope set: the names of the
    /// set flags, in declaration order, with nothing else.
    pub fn to_string(self) -> (r: String)
        ensures
            r@ == spec_scopes_string(self),
    {
        let names = self.enabled_names();
        join_with_commas(&names)
    }
}

/// True when no character of `p` is a comma.
pub open spec fn comma_free(p: Seq<char>) -> bool {
    forall|k: int| 0 <= k < p.len() ==> p[k] != ','
}

/// Every scope name is nonempty and holds no comma.
pub proof fn lemma_scope_names_wf()
    ensures
        forall|j: int| 0 <= j < scope_count() ==> (#[trigger] scope_name(j)).len() > 0,
        forall|j: int| 0 <= j < scope_count() ==> comma_free(#[trigger] scope_name(j)),
{
    assert forall|j: int| 0 <= j < scope_count() implies (#[trigger] scope_name(j)).len() > 0
        && comma_free(scope_name(j)) by {
        reveal_strlit("identity");
        reveal_strlit("edit");
        reveal_strlit("flair");
        reveal_strlit("history");
        reveal_strlit("modconfig");
        reveal_strlit("modflair");
        reveal_strlit("modlog");
        reveal_strlit("modposts");
        reveal_strlit("modwiki");
        reveal_strlit("mysubreddits");
        reveal_strlit("privatemessages");
        reveal_strlit("read");
        reveal_strlit("report");
        reveal_strlit("save");
        reveal_strlit("submit");
        reveal_strlit("subscribe");
        reveal_strlit("vote");
        reveal_strlit("wikiedit");
        reveal_strlit("wikiread");
        reveal_strlit("account");
    }
}

/// The scope set whose first `k` flags are copied from `s` and whose
/// remaining flags are cleared.
pub open spec fn take_flags(s: Scopes, k: int) -> Scopes {
    Scopes {
        identity: k > 0 && s.identity,
        edit: k > 1 && s.edit,
        flair: k > 2 && s.flair,
        history: k > 3 && s.history,
        modconfig: k > 4 && s.modconfig,
        modflair: k > 5 && s.modflair,
        modlog: k > 6 && s.modlog,
        modposts: k > 7 && s.modposts,
        modwiki: k > 8 && s.modwiki,
        mysubreddits: k > 9 && s.mysubreddits,
        privatemessages: k > 10 && s.privatemessages,
        read: k > 11 && s.read,
        report: k > 12 && s.report,
        save: k > 13 && s.save,
        submit: k > 14 && s.submit,
        subscribe: k > 15 && s.subscribe,
        vote: k > 16 && s.vote,
        wikiedit: k > 17 && s.wikiedit,
        wikiread: k > 18 && s.wikiread,
        account: k > 19 && s.account,
    }
}

/// `acc` after reading a whole list of pieces in order, each as
/// `apply_scope_piece_from` describes.
pub open spec fn apply_fold(l: Seq<Seq<char>>, acc: Scopes) -> Scopes
    decreases l.len(),
{
    if l.len() == 0 {
        acc
    } else {
        apply_fold(l.drop_first(), apply_scope_piece_from(acc, l[0], 0))
    }
}

/// Reading one more piece after a list reads the list first.
pub proof fn lemma_apply_fold_push(l: Seq<Seq<char>>, x: Seq<char>, acc: Scopes)
    ensures
        apply_fold(l.push(x), acc) == apply_scope_piece_from(apply_fold(l, acc), x, 0),
    decreases l.len(),
{
    reveal_with_fuel(apply_fold, 3);
    if l.len() == 0 {
        assert(l.push(x).drop_first() =~= Seq::<Seq<char>>::empty());
        assert(l.push(x)[0] == x);
    } else {
        assert(l.push(x).drop_first() =~= l.drop_first().push(x));
        assert(l.push(x)[0] == l[0]);
        lemma_apply_fold_push(l.drop_first(), x, apply_scope_piece_from(acc, l[0], 0));
    }
}

/// Reading a piece that is the scope name at position `j` sets exactly
/// that flag.
pub proof fn lemma_apply_scope_name(acc: Scopes, j: int)
    requires
        0 <= j < scope_count(),
    ensures
        apply_scope_piece_from(acc, scope_name(j), 0) == set_scope_flag(acc, j),
{
    if j == 0 {
        assert(apply_scope_piece_from(acc, scope_name(0), 0) == set_scope_flag(acc, 0)) by {
            reveal_with_fuel(apply_scope_piece_from, 2);
            reveal_strlit("identity");
            assert("identity"@.len() == 8);
        };
    }
    if j == 1 {
        assert(apply_scope_piece_from(acc, scope_name(1), 0) == set_scope_flag(acc, 1)) by {
            reveal_with_fuel(apply_scope_piece_from, 3);
            reveal_strlit("identity");
            reveal_strlit("edit");
            assert("identity"@.len() == 8);
            assert("edit"@.len() == 4);
            assert("edit"@ != "identity"@);
        };
    }
    if j == 2 {
        assert(apply_scope_piece_from(acc, scope_name(2), 0) == set_scope_flag(acc, 2)) by {
            reveal_with_fuel(apply_scope_piece_from, 4);
            reveal_strlit("identity");
            reveal_strlit("edit");
            reveal_strlit("flair");
            assert("identity"@.len() == 8);
            assert("edit"@.len() == 4);
            assert("flair"@.len() == 5);
            assert("flair"@ != "identity"@);
            assert("flair"@ != "edit"@);
        };
    }
    if j == 3 {
        assert(apply_scope_piece_from(acc, scope_name(3), 0) == set_scope_flag(acc, 3)) by {
            reveal_with_fuel(apply_scope_piece_from, 5);
            reveal_strlit("identity");
            reveal_strlit("edit");
            reveal_strlit("flair");
            reveal_strlit("history");
            assert("identity"@.len() == 8);
            assert("edit"@.len() == 4);
            assert("flair"@.len() == 5);
            assert("history"@.len() == 7);
            assert("history"@ != "identity"@);
            assert("history"@ != "edit"@);
            assert("history"@ != "flair"@);
        };
    }
    if j == 4 {
        assert(apply_scope_piece_from(acc, scope_name(4), 0) == set_scope_flag(acc, 4)) by {
            reveal_with_fuel(apply_scope_piece_from, 6);
            reveal_strlit("identity");
            reveal_strlit("edit");
            reveal_strlit("flair");
            reveal_strlit("history");
            reveal_strlit("modconfig");
            assert("identity"@.len() == 8);
            assert("edit"@.len() == 4);
            assert("flair"@.len() == 5);
            assert("history"@.len() == 7);
            assert("modconfig"@.len() == 9);
            assert("modconfig"@ != "identity"@);
            assert("modconfig"@ != "edit"@);
            assert("modconfig"@ != "flair"@);
            assert("modconfig"@ != "history"@);
        };
    }
    if j == 5 {
        assert(apply_scope_piece_from(acc, scope_name(5), 0) == set_scope_flag(acc, 5)) by {
            reveal_with_fuel(apply_scope_piece_from, 7);
            reveal_strlit("identity");
            reveal_strlit("edit");
            reveal_strlit("flair");
            reveal_strlit("history");
            reveal_strlit("modconfig");
            reveal_strlit("modflair");
            assert("identity"@.len() == 8);
            assert("edit"@.len() == 4);
            assert("flair"@.len() == 5);
            assert("history"@.len() == 7);
            assert("modconfig"@.len() == 9);
            assert("modflair"@.len() == 8);
            assert("identity"@[0] == 'i');
            assert("modflair"@[0] == 'm');
            assert("modflair"@ != "identity"@);
            assert("modflair"@ != "edit"@);
            assert("modflair"@ != "flair"@);
            assert("modflair"@ != "history"@);
            assert("modflair"@ != "modconfig"@);
        };
    }
    if j == 6 {
        assert(apply_scope_piece_from(acc, scope_name(6), 0) == set_scope_flag(acc, 6)) by {
            reveal_with_fuel(apply_scope_piece_from, 8);
            reveal_strlit("identity");
            reveal_strlit("edit");
            reveal_strlit("flair");
            reveal_strlit("history");
            reveal_strlit("modconfig");
            reveal_strlit("modflair");
            reveal_strlit("modlog");
            assert("identity"@.len() == 8);
            assert("edit"@.len() == 4);
            assert("flair"@.len() == 5);
            assert("history"@.len() == 7);
            assert("modconfig"@.len() == 9);
            assert("modflair"@.len() == 8);
            assert("modlog"@.len() == 6);
            assert("modlog"@ != "identity"@);
            assert("modlog"@ != "edit"@);
            assert("modlog"@ != "flair"@);
            assert("modlog"@ != "history"@);
            assert("modlog"@ != "modconfig"@);
            assert("modlog"@ != "modflair"@);
        };
    }
    if j == 7 {
        assert(apply_scope_piece_from(acc, scope_name(7), 0) == set_scope_flag(acc, 7)) by {
            reveal_with_fuel(apply_scope_piece_from, 9);
            reveal_strlit("identity");
            reveal_strlit("edit");
            reveal_strlit("flair");
            reveal_strlit("history");
            reveal_strlit("modconfig");
            reveal_strlit("modflair");
            reveal_strlit("modlog");
            reveal_strlit("modposts");
            assert("identity"@.len() == 8);
            assert("edit"@.len() == 4);
            assert("flair"@.len() == 5);
            assert("history"@.len() == 7);
            assert("modconfig"@.len() == 9);
            assert("modflair"@.len() == 8);
            assert("modlog"@.len() == 6);
            assert("modposts"@.len() == 8);
            assert("identity"@[0] == 'i');
            assert("modposts"@[0] == 'm');
            assert("modposts"@ != "identity"@);
            assert("modposts"@ != "edit"@);
            assert("modposts"@ != "flair"@);
            assert("modposts"@ != "history"@);
            assert("modposts"@ != "modconfig"@);
            assert("modflair"@[3] == 'f');
            assert("modposts"@[3] == 'p');
            assert("modposts"@ != "modflair"@);
            assert("modposts"@ != "modlog"@);
        };
    }
    if j == 8 {
        assert(apply_scope_piece_from(acc, scope_name(8), 0) == set_scope_flag(acc, 8)) by {
            reveal_with_fuel(apply_scope_piece_from, 10);
            reveal_strlit("identity");
            reveal_strlit("edit");
            reveal_strlit("flair");
            reveal_strlit("history");
            reveal_strlit("modconfig");
            reveal_strlit("modflair");
            reveal_strlit("modlog");
            reveal_strlit("modposts");
            reveal_strlit("modwiki");
            assert("identity"@.len() == 8);
            assert("edit"@.len() == 4);
            assert("flair"@.len() == 5);
            assert("history"@.len() == 7);
            assert("modconfig"@.len() == 9);
            assert("modflair"@.len() == 8);
            assert("modlog"@.len() == 6);
            assert("modposts"@.len() == 8);
            assert("modwiki"@.len() == 7);
            assert("modwiki"@ != "identity"@);
            assert("modwiki"@ != "edit"@);
            assert("modwiki"@ != "flair"@);
            assert("history"@[0] == 'h');
            assert("modwiki"@[0] == 'm');
            assert("modwiki"@ != "history"@);
            assert("modwiki"@ != "modconfig"@);
            assert("modwiki"@ != "modflair"@);
            assert("modwiki"@ != "modlog"@);
            assert("modwiki"@ != "modposts"@);
        };
    }
    if j == 9 {
        assert(apply_scope_piece_from(acc, scope_name(9), 0) == set_scope_flag(acc, 9)) by {
            reveal_with_fuel(apply_scope_piece_from, 11);
            reveal_strlit("identity");
            reveal_strlit("edit");
            reveal_strlit("flair");
            reveal_strlit("history");
            reveal_strlit("modconfig");
            reveal_strlit("modflair");
            reveal_strlit("modlog");
            reveal_strlit("modposts");
            reveal_strlit("modwiki");
            reveal_strlit("mysubreddits");
            assert("identity"@.len() == 8);
            assert("edit"@.len() == 4);
            assert("flair"@.len() == 5);
            assert("history"@.len() == 7);
            assert("modconfig"@.len() == 9);
            assert("modflair"@.len() == 8);
            assert("modlog"@.len() == 6);
            assert("modposts"@.len() == 8);
            assert("modwiki"@.len() == 7);
            assert("mysubreddits"@.len() == 12);
            assert("mysubreddits"@ != "identity"@);
            assert("mysubreddits"@ != "edit"@);
            assert("mysubreddits"@ != "flair"@);
            assert("mysubreddits"@ != "history"@);
            assert("mysubreddits"@ != "modconfig"@);
            assert("mysubreddits"@ != "modflair"@);
            assert("mysubreddits"@ != "modlog"@);
            assert("mysubreddits"@ != "modposts"@);
            assert("mysubreddits"@ != "modwiki"@);
        };
    }
    if j == 10 {
        assert(apply_scope_piece_from(acc, scope_name(10), 0) == set_scope_flag(acc, 10)) by {
            reveal_with_fuel(apply_scope_piece_from, 12);
            reveal_strlit("identity");
            reveal_strlit("edit");
            reveal_strlit("flair");
            reveal_strlit("history");
            reveal_strlit("modconfig");
            reveal_strlit("modflair");
            reveal_strlit("modlog");
            reveal_strlit("modposts");
            reveal_strlit("modwiki");
            reveal_strlit("mysubreddits");
            reveal_strlit("privatemessages");
            assert("identity"@.len() == 8);
            assert("edit"@.len() == 4);
            assert("flair"@.len() == 5);
            assert("history"@.len() == 7);
            assert("modconfig"@.len() == 9);
            assert("modflair"@.len() == 8);
            assert("modlog"@.len() == 6);
            assert("modposts"@.len() == 8);
            assert("modwiki"@.len() == 7);
            assert("mysubreddits"@.len() == 12);
            assert("privatemessages"@.len() == 15);
            assert("privatemessages"@ != "identity"@);
            assert("privatemessages"@ != "edit"@);
            assert("privatemessages"@ != "flair"@);
            assert("privatemessages"@ != "history"@);
            assert("privatemessages"@ != "modconfig"@);
            assert("privatemessages"@ != "modflair"@);
            assert("privatemessages"@ != "modlog"@);
            assert("privatemessages"@ != "modposts"@);
            assert("privatemessages"@ != "modwiki"@);
            assert("privatemessages"@ != "mysubreddits"@);
        };
    }
    if j == 11 {
        assert(apply_scope_piece_from(acc, scope_name(11), 0) == set_scope_flag(acc, 11)) by {
            reveal_with_fuel(apply_scope_piece_from, 13);
            reveal_strlit("identity");
            reveal_strlit("edit");
            reveal_strlit("flair");
            reveal_strlit("history");
            reveal_strlit("modconfig");
            reveal_strlit("modflair");
            reveal_strlit("modlog");
            reveal_strlit("modposts");
            reveal_strlit("modwiki");
            reveal_strlit("mysubreddits");
            reveal_strlit("privatemessages");
            reveal_strlit("read");
            assert("identity"@.len() == 8);
            assert("edit"@.len() == 4);
            assert("flair"@.len() == 5);
            assert("history"@.len() == 7);
            assert("modconfig"@.len() == 9);
            assert("modflair"@.len() == 8);
            assert("modlog"@.len() == 6);
            assert("modposts"@.len() == 8);
            assert("modwiki"@.len() == 7);
            assert("mysubreddits"@.len() == 12);
            assert("privatemessages"@.len() == 15);
            assert("read"@.len() == 4);
            assert("read"@ != "identity"@);
            assert("edit"@[0] == 'e');
            assert("read"@[0] == 'r');
            assert("read"@ != "edit"@);
            assert("read"@ != "flair"@);
            assert("read"@ != "history"@);
            assert("read"@ != "modconfig"@);
            assert("read"@ != "modflair"@);
            assert("read"@ != "modlog"@);
            assert("read"@ != "modposts"@);
            assert("read"@ != "modwiki"@);
            assert("read"@ != "mysubreddits"@);
            assert("read"@ != "privatemessages"@);
        };
    }
    if j == 12 {
        assert(apply_scope_piece_from(acc, scope_name(12), 0) == set_scope_flag(acc, 12)) by {
            reveal_with_fuel(apply_scope_piece_from, 14);
            reveal_strlit("identity");
            reveal_strlit("edit");
            reveal_strlit("flair");
            reveal_strlit("history");
            reveal_strlit("modconfig");
            reveal_strlit("modflair");
            reveal_strlit("modlog");
            reveal_strlit("modposts");
            reveal_strlit("modwiki");
            reveal_strlit("mysubreddits");
            reveal_strlit("privatemessages");
            reveal_strlit("read");
            reveal_strlit("report");
            assert("identity"@.len() == 8);
            assert("edit"@.len() == 4);
            assert("flair"@.len() == 5);
            assert("history"@.len() == 7);
            assert("modconfig"@.len() == 9);
            assert("modflair"@.len() == 8);
            assert("modlog"@.len() == 6);
            assert("modposts"@.len() == 8);
            assert("modwiki"@.len() == 7);
            assert("mysubreddits"@.len() == 12);
            assert("privatemessages"@.len() == 15);
            assert("read"@.len() == 4);
            assert("report"@.len() == 6);
            assert("report"@ != "identity"@);
            assert("report"@ != "edit"@);
            assert("report"@ != "flair"@);
            assert("report"@ != "history"@);
            assert("report"@ != "modconfig"@);
            assert("report"@ != "modflair"@);
            assert("modlog"@[0] == 'm');
            assert("report"@[0] == 'r');
            assert("report"@ != "modlog"@);
            assert("report"@ != "modposts"@);
            assert("report"@ != "modwiki"@);
            assert("report"@ != "mysubreddits"@);
            assert("report"@ != "privatemessages"@);
            assert("report"@ != "read"@);
        };
    }
    if j == 13 {
        assert(apply_scope_piece_from(acc, scope_name(13), 0) == set_scope_flag(acc, 13)) by {
            reveal_with_fuel(apply_scope_piece_from, 15);
            reveal_strlit("identity");
            reveal_strlit("edit");
            reveal_strlit("flair");
            reveal_strlit("history");
            reveal_strlit("modconfig");
            reveal_strlit("modflair");
            reveal_strlit("modlog");
            reveal_strlit("modposts");
            reveal_strlit("modwiki");
            reveal_strlit("mysubreddits");
            reveal_strlit("privatemessages");
            reveal_strlit("read");
            reveal_strlit("report");
            reveal_strlit("save");
            assert("identity"@.len() == 8);
            assert("edit"@.len() == 4);
            assert("flair"@.len() == 5);
            assert("history"@.len() == 7);
            assert("modconfig"@.len() == 9);
            assert("modflair"@.len() == 8);
            assert("modlog"@.len() == 6);
            assert("modposts"@.len() == 8);
            assert("modwiki"@.len() == 7);
            assert("mysubreddits"@.len() == 12);
            assert("privatemessages"@.len() == 15);
            assert("read"@.len() == 4);
            assert("report"@.len() == 6);
            assert("save"@.len() == 4);
            assert("save"@ != "identity"@);
            assert("edit"@[0] == 'e');
            assert("save"@[0] == 's');
            assert("save"@ != "edit"@);
            assert("save"@ != "flair"@);
            assert("save"@ != "history"@);
            assert("save"@ != "modconfig"@);
            assert("save"@ != "modflair"@);
            assert("save"@ != "modlog"@);
            assert("save"@ != "modposts"@);
            assert("save"@ != "modwiki"@);
            assert("save"@ != "mysubreddits"@);
            assert("save"@ != "privatemessages"@);
            assert("read"@[0] == 'r');
            assert("save"@[0] == 's');
            assert("save"@ != "read"@);
            assert("save"@ != "report"@);
        };
    }
    if j == 14 {
        assert(apply_scope_piece_from(acc, scope_name(14), 0) == set_scope_flag(acc, 14)) by {
            reveal_with_fuel(apply_scope_piece_from, 16);
            reveal_strlit("identity");
            reveal_strlit("edit");
            reveal_strlit("flair");
            reveal_strlit("history");
            reveal_strlit("modconfig");
            reveal_strlit("modflair");
            reveal_strlit("modlog");
            reveal_strlit("modposts");
            reveal_strlit("modwiki");
            reveal_strlit("mysubreddits");
            reveal_strlit("privatemessages");
            reveal_strlit("read");
            reveal_strlit("report");
            reveal_strlit("save");
            reveal_strlit("submit");
            assert("identity"@.len() == 8);
            assert("edit"@.len() == 4);
            assert("flair"@.len() == 5);
            assert("history"@.len() == 7);
            assert("modconfig"@.len() == 9);
            assert("modflair"@.len() == 8);
            assert("modlog"@.len() == 6);
            assert("modposts"@.len() == 8);
            assert("modwiki"@.len() == 7);
            assert("mysubreddits"@.len() == 12);
            assert("privatemessages"@.len() == 15);
            assert("read"@.len() == 4);
            assert("report"@.len() == 6);
            assert("save"@.len() == 4);
            assert("submit"@.len() == 6);
            assert("submit"@ != "identity"@);
            assert("submit"@ != "edit"@);
            assert("submit"@ != "flair"@);
            assert("submit"@ != "history"@);
            assert("submit"@ != "modconfig"@);
            assert("submit"@ != "modflair"@);
            assert("modlog"@[0] == 'm');
            assert("submit"@[0] == 's');
            assert("submit"@ != "modlog"@);
            assert("submit"@ != "modposts"@);
            assert("submit"@ != "modwiki"@);
            assert("submit"@ != "mysubreddits"@);
            assert("submit"@ != "privatemessages"@);
            assert("submit"@ != "read"@);
            assert("report"@[0] == 'r');
            assert("submit"@[0] == 's');
            assert("submit"@ != "report"@);
            assert("submit"@ != "save"@);
        };
    }
    if j == 15 {
        assert(apply_scope_piece_from(acc, scope_name(15), 0) == set_scope_flag(acc, 15)) by {
            reveal_with_fuel(apply_scope_piece_from, 17);
            reveal_strlit("identity");
            reveal_strlit("edit");
            reveal_strlit("flair");
            reveal_strlit("history");
            reveal_strlit("modconfig");
            reveal_strlit("modflair");
            reveal_strlit("modlog");
            reveal_strlit("modposts");
            reveal_strlit("modwiki");
            reveal_strlit("mysubreddits");
            reveal_strlit("privatemessages");
            reveal_strlit("read");
            reveal_strlit("report");
            reveal_strlit("save");
            reveal_strlit("submit");
            reveal_strlit("subscribe");
            assert("identity"@.len() == 8);
            assert("edit"@.len() == 4);
            assert("flair"@.len() == 5);
            assert("history"@.len() == 7);
            assert("modconfig"@.len() == 9);
            assert("modflair"@.len() == 8);
            assert("modlog"@.len() == 6);
            assert("modposts"@.len() == 8);
            assert("modwiki"@.len() == 7);
            assert("mysubreddits"@.len() == 12);
            assert("privatemessages"@.len() == 15);
            assert("read"@.len() == 4);
            assert("report"@.len() == 6);
            assert("save"@.len() == 4);
            assert("submit"@.len() == 6);
            assert("subscribe"@.len() == 9);
            assert("subscribe"@ != "identity"@);
            assert("subscribe"@ != "edit"@);
            assert("subscribe"@ != "flair"@);
            assert("subscribe"@ != "history"@);
            assert("modconfig"@[0] == 'm');
            assert("subscribe"@[0] == 's');
            assert("subscribe"@ != "modconfig"@);
            assert("subscribe"@ != "modflair"@);
            assert("subscribe"@ != "modlog"@);
            assert("subscribe"@ != "modposts"@);
            assert("subscribe"@ != "modwiki"@);
            assert("subscribe"@ != "mysubreddits"@);
            assert("subscribe"@ != "privatemessages"@);
            assert("subscribe"@ != "read"@);
            assert("subscribe"@ != "report"@);
            assert("subscribe"@ != "save"@);
            assert("subscribe"@ != "submit"@);
        };
    }
    if j == 16 {
        assert(apply_scope_piece_from(acc, scope_name(16), 0) == set_scope_flag(acc, 16)) by {
            reveal_with_fuel(apply_scope_piece_from, 18);
            reveal_strlit("identity");
            reveal_strlit("edit");
            reveal_strlit("flair");
            reveal_strlit("history");
            reveal_strlit("modconfig");
            reveal_strlit("modflair");
            reveal_strlit("modlog");
            reveal_strlit("modposts");
            reveal_strlit("modwiki");
            reveal_strlit("mysubreddits");
            reveal_strlit("privatemessages");
            reveal_strlit("read");
            reveal_strlit("report");
            reveal_strlit("save");
            reveal_strlit("submit");
            reveal_strlit("subscribe");
            reveal_strlit("vote");
            assert("identity"@.len() == 8);
            assert("edit"@.len() == 4);
            assert("flair"@.len() == 5);
            assert("history"@.len() == 7);
            assert("modconfig"@.len() == 9);
            assert("modflair"@.len() == 8);
            assert("modlog"@.len() == 6);
            assert("modposts"@.len() == 8);
            assert("modwiki"@.len() == 7);
            assert("mysubreddits"@.len() == 12);
            assert("privatemessages"@.len() == 15);
            assert("read"@.len() == 4);
            assert("report"@.len() == 6);
            assert("save"@.len() == 4);
            assert("submit"@.len() == 6);
            assert("subscribe"@.len() == 9);
            assert("vote"@.len() == 4);
            assert("vote"@ != "identity"@);
            assert("edit"@[0] == 'e');
            assert("vote"@[0] == 'v');
            assert("vote"@ != "edit"@);
            assert("vote"@ != "flair"@);
            assert("vote"@ != "history"@);
            assert("vote"@ != "modconfig"@);
            assert("vote"@ != "modflair"@);
            assert("vote"@ != "modlog"@);
            assert("vote"@ != "modposts"@);
            assert("vote"@ != "modwiki"@);
            assert("vote"@ != "mysubreddits"@);
            assert("vote"@ != "privatemessages"@);
            assert("read"@[0] == 'r');
            assert("vote"@[0] == 'v');
            assert("vote"@ != "read"@);
            assert("vote"@ != "report"@);
            assert("save"@[0] == 's');
            assert("vote"@[0] == 'v');
            assert("vote"@ != "save"@);
            assert("vote"@ != "submit"@);
            assert("vote"@ != "subscribe"@);
        };
    }
    if j == 17 {
        assert(apply_scope_piece_from(acc, scope_name(17), 0) == set_scope_flag(acc, 17)) by {
            reveal_with_fuel(apply_scope_piece_from, 19);
            reveal_strlit("identity");
            reveal_strlit("edit");
            reveal_strlit("flair");
            reveal_strlit("history");
            reveal_strlit("modconfig");
            reveal_strlit("modflair");
            reveal_strlit("modlog");
            reveal_strlit("modposts");
            reveal_strlit("modwiki");
            reveal_strlit("mysubreddits");
            reveal_strlit("privatemessages");
            reveal_strlit("read");
            reveal_strlit("report");
            reveal_strlit("save");
            reveal_strlit("submit");
            reveal_strlit("subscribe");
            reveal_strlit("vote");
            reveal_strlit("wikiedit");
            assert("identity"@.len() == 8);
            assert("edit"@.len() == 4);
            assert("flair"@.len() == 5);
            assert("history"@.len() == 7);
            assert("modconfig"@.len() == 9);
            assert("modflair"@.len() == 8);
            assert("modlog"@.len() == 6);
            assert("modposts"@.len() == 8);
            assert("modwiki"@.len() == 7);
            assert("mysubreddits"@.len() == 12);
            assert("privatemessages"@.len() == 15);
            assert("read"@.len() == 4);
            assert("report"@.len() == 6);
            assert("save"@.len() == 4);
            assert("submit"@.len() == 6);
            assert("subscribe"@.len() == 9);
            assert("vote"@.len() == 4);
            assert("wikiedit"@.len() == 8);
            assert("identity"@[0] == 'i');
            assert("wikiedit"@[0] == 'w');
            assert("wikiedit"@ != "identity"@);
            assert("wikiedit"@ != "edit"@);
            assert("wikiedit"@ != "flair"@);
            assert("wikiedit"@ != "history"@);
            assert("wikiedit"@ != "modconfig"@);
            assert("modflair"@[0] == 'm');
            assert("wikiedit"@[0] == 'w');
            assert("wikiedit"@ != "modflair"@);
            assert("wikiedit"@ != "modlog"@);
            assert("modposts"@[0] == 'm');
            assert("wikiedit"@[0] == 'w');
            assert("wikiedit"@ != "modposts"@);
            assert("wikiedit"@ != "modwiki"@);
            assert("wikiedit"@ != "mysubreddits"@);
            assert("wikiedit"@ != "privatemessages"@);
            assert("wikiedit"@ != "read"@);
            assert("wikiedit"@ != "report"@);
            assert("wikiedit"@ != "save"@);
            assert("wikiedit"@ != "submit"@);
            assert("wikiedit"@ != "subscribe"@);
            assert("wikiedit"@ != "vote"@);
        };
    }
    if j == 18 {
        assert(apply_scope_piece_from(acc, scope_name(18), 0) == set_scope_flag(acc, 18)) by {
            reveal_with_fuel(apply_scope_piece_from, 20);
            reveal_strlit("identity");
            reveal_strlit("edit");
            reveal_strlit("flair");
            reveal_strlit("history");
            reveal_strlit("modconfig");
            reveal_strlit("modflair");
            reveal_strlit("modlog");
            reveal_strlit("modposts");
            reveal_strlit("modwiki");
            reveal_strlit("mysubreddits");
            reveal_strlit("privatemessages");
            reveal_strlit("read");
            reveal_strlit("report");
            reveal_strlit("save");
            reveal_strlit("submit");
            reveal_strlit("subscribe");
            reveal_strlit("vote");
            reveal_strlit("wikiedit");
            reveal_strlit("wikiread");
            assert("identity"@.len() == 8);
            assert("edit"@.len() == 4);
            assert("flair"@.len() == 5);
            assert("history"@.len() == 7);
            assert("modconfig"@.len() == 9);
            assert("modflair"@.len() == 8);
            assert("modlog"@.len() == 6);
            assert("modposts"@.len() == 8);
            assert("modwiki"@.len() == 7);
            assert("mysubreddits"@.len() == 12);
            assert("privatemessages"@.len() == 15);
            assert("read"@.len() == 4);
            assert("report"@.len() == 6);
            assert("save"@.len() == 4);
            assert("submit"@.len() == 6);
            assert("subscribe"@.len() == 9);
            assert("vote"@.len() == 4);
            assert("wikiedit"@.len() == 8);
            assert("wikiread"@.len() == 8);
            assert("identity"@[0] == 'i');
            assert("wikiread"@[0] == 'w');
            assert("wikiread"@ != "identity"@);
            assert("wikiread"@ != "edit"@);
            assert("wikiread"@ != "flair"@);
            assert("wikiread"@ != "history"@);
            assert("wikiread"@ != "modconfig"@);
            assert("modflair"@[0] == 'm');
            assert("wikiread"@[0] == 'w');
            assert("wikiread"@ != "modflair"@);
            assert("wikiread"@ != "modlog"@);
            assert("modposts"@[0] == 'm');
            assert("wikiread"@[0] == 'w');
            assert("wikiread"@ != "modposts"@);
            assert("wikiread"@ != "modwiki"@);
            assert("wikiread"@ != "mysubreddits"@);
            assert("wikiread"@ != "privatemessages"@);
            assert("wikiread"@ != "read"@);
            assert("wikiread"@ != "report"@);
            assert("wikiread"@ != "save"@);
            assert("wikiread"@ != "submit"@);
            assert("wikiread"@ != "subscribe"@);
            assert("wikiread"@ != "vote"@);
            assert("wikiedit"@[4] == 'e');
            assert("wikiread"@[4] == 'r');
            assert("wikiread"@ != "wikiedit"@);
        };
    }
    if j == 19 {
        assert(apply_scope_piece_from(acc, scope_name(19), 0) == set_scope_flag(acc, 19)) by {
            reveal_with_fuel(apply_scope_piece_from, 21);
            reveal_strlit("identity");
            reveal_strlit("edit");
            reveal_strlit("flair");
            reveal_strlit("history");
            reveal_strlit("modconfig");
            reveal_strlit("modflair");
            reveal_strlit("modlog");
            reveal_strlit("modposts");
            reveal_strlit("modwiki");
            reveal_strlit("mysubreddits");
            reveal_strlit("privatemessages");
            reveal_strlit("read");
            reveal_strlit("report");
            reveal_strlit("save");
            reveal_strlit("submit");
            reveal_strlit("subscribe");
            reveal_strlit("vote");
            reveal_strlit("wikiedit");
            reveal_strlit("wikiread");
            reveal_strlit("account");
            assert("identity"@.len() == 8);
            assert("edit"@.len() == 4);
            assert("flair"@.len() == 5);
            assert("history"@.len() == 7);
            assert("modconfig"@.len() == 9);
            assert("modflair"@.len() == 8);
            assert("modlog"@.len() == 6);
            assert("modposts"@.len() == 8);
            assert("modwiki"@.len() == 7);
            assert("mysubreddits"@.len() == 12);
            assert("privatemessages"@.len() == 15);
            assert("read"@.len() == 4);
            assert("report"@.len() == 6);
            assert("save"@.len() == 4);
            assert("submit"@.len() == 6);
            assert("subscribe"@.len() == 9);
            assert("vote"@.len() == 4);
            assert("wikiedit"@.len() == 8);
            assert("wikiread"@.len() == 8);
            assert("account"@.len() == 7);
            assert("account"@ != "identity"@);
            assert("account"@ != "edit"@);
            assert("account"@ != "flair"@);
            assert("history"@[0] == 'h');
            assert("account"@[0] == 'a');
            assert("account"@ != "history"@);
            assert("account"@ != "modconfig"@);
            assert("account"@ != "modflair"@);
            assert("account"@ != "modlog"@);
            assert("account"@ != "modposts"@);
            assert("modwiki"@[0] == 'm');
            assert("account"@[0] == 'a');
            assert("account"@ != "modwiki"@);
            assert("account"@ != "mysubreddits"@);
            assert("account"@ != "privatemessages"@);
            assert("account"@ != "read"@);
            assert("account"@ != "report"@);
            assert("account"@ != "save"@);
            assert("account"@ != "submit"@);
            assert("account"@ != "subscribe"@);
            assert("account"@ != "vote"@);
            assert("account"@ != "wikiedit"@);
            assert("account"@ != "wikiread"@);
        };
    }
}

/// Reading an empty piece changes nothing.
pub proof fn lemma_apply_empty_piece(acc: Scopes)
    ensures
        apply_scope_piece_from(acc, Seq::<char>::empty(), 0) == acc,
{
    reveal_with_fuel(apply_scope_piece_from, 21);
    lemma_scope_names_wf();
}

#[verifier::rlimit(100)]
#[verifier::spinoff_prover]
proof fn lemma_fold_enabled_step02(s: Scopes)
    ensures
        apply_fold(enabled_upto(s, 2), scopes_none()) == take_flags(s, 2),
{
    assert(enabled_upto(s, 0) =~= Seq::<Seq<char>>::empty()) by {
        reveal_with_fuel(enabled_upto, 2);
    };
    assert(apply_fold(enabled_upto(s, 0), scopes_none()) == take_flags(s, 0));
    assert(apply_fold(enabled_upto(s, 1), scopes_none()) == take_flags(s, 1)) by {
        reveal_with_fuel(enabled_upto, 2);
        if scope_flag(s, 0) {
            lemma_apply_fold_push(enabled_upto(s, 0), scope_name(0), scopes_none());
            lemma_apply_scope_name(take_flags(s, 0), 0);
        }
    };
    assert(apply_fold(enabled_upto(s, 2), scopes_none()) == take_flags(s, 2)) by {
        reveal_with_fuel(enabled_upto, 2);
        if scope_flag(s, 1) {
            lemma_apply_fold_push(enabled_upto(s, 1), scope_name(1), scopes_none());
            lemma_apply_scope_name(take_flags(s, 1), 1);
        }
    };
}
#[verifier::rlimit(100)]
#[verifier::spinoff_prover]
proof fn lemma_fold_enabled_step04(s: Scopes)
    requires
        apply_fold(enabled_upto(s, 2), scopes_none()) == take_flags(s, 2),
    ensures
        apply_fold(enabled_upto(s, 4), scopes_none()) == take_flags(s, 4),
{
    assert(apply_fold(enabled_upto(s, 3), scopes_none()) == take_flags(s, 3)) by {
        reveal_with_fuel(enabled_upto, 2);
        if scope_flag(s, 2) {
            lemma_apply_fold_push(enabled_upto(s, 2), scope_name(2), scopes_none());
            lemma_apply_scope_name(take_flags(s, 2), 2);
        }
    };
    assert(apply_fold(enabled_upto(s, 4), scopes_none()) == take_flags(s, 4)) by {
        reveal_with_fuel(enabled_upto, 2);
        if scope_flag(s, 3) {
            lemma_apply_fold_push(enabled_upto(s, 3), scope_name(3), scopes_none());
            lemma_apply_scope_name(take_flags(s, 3), 3);
        }
    };
}
#[verifier::rlimit(100)]
#[verifier::spinoff_prover]
proof fn lemma_fold_enabled_step06(s: Scopes)
    requires
        apply_fold(enabled_upto(s, 4), scopes_none()) == take_flags(s, 4),
    ensures
        apply_fold(enabled_upto(s, 6), scopes_none()) == take_flags(s, 6),
{
    assert(apply_fold(enabled_upto(s, 5), scopes_none()) == take_flags(s, 5)) by {
        reveal_with_fuel(enabled_upto, 2);
        if scope_flag(s, 4) {
            lemma_apply_fold_push(enabled_upto(s, 4), scope_name(4), scopes_none());
            lemma_apply_scope_name(take_flags(s, 4), 4);
        }
    };
    assert(apply_fold(enabled_upto(s, 6), scopes_none()) == take_flags(s, 6)) by {
        reveal_with_fuel(enabled_upto, 2);
        if scope_flag(s, 5) {
            lemma_apply_fold_push(enabled_upto(s, 5), scope_name(5), scopes_none());
            lemma_apply_scope_name(take_flags(s, 5), 5);
        }
    };
}
#[verifier::rlimit(100)]
#[verifier::spinoff_prover]
proof fn lemma_fold_enabled_step08(s: Scopes)
    requires
        apply_fold(enabled_upto(s, 6), scopes_none()) == take_flags(s, 6),
    ensures
        apply_fold(enabled_upto(s, 8), scopes_none()) == take_flags(s, 8),
{
    assert(apply_fold(enabled_upto(s, 7), scopes_none()) == take_flags(s, 7)) by {
        reveal_with_fuel(enabled_upto, 2);
        if scope_flag(s, 6) {
            lemma_apply_fold_push(enabled_upto(s, 6), scope_name(6), scopes_none());
            lemma_apply_scope_name(take_flags(s, 6), 6);
        }
    };
    assert(apply_fold(enabled_upto(s, 8), scopes_none()) == take_flags(s, 8)) by {
        reveal_with_fuel(enabled_upto, 2);
        if scope_flag(s, 7) {
            lemma_apply_fold_push(enabled_upto(s, 7), scope_name(7), scopes_none());
            lemma_apply_scope_name(take_flags(s, 7), 7);
        }
    };
}
#[verifier::rlimit(100)]
#[verifier::spinoff_prover]
proof fn lemma_fold_enabled_step10(s: Scopes)
    requires
        apply_fold(enabled_upto(s, 8), scopes_none()) == take_flags(s, 8),
    ensures
        apply_fold(enabled_upto(s, 10), scopes_none()) == take_flags(s, 10),
{
    assert(apply_fold(enabled_upto(s, 9), scopes_none()) == take_flags(s, 9)) by {
        reveal_with_fuel(enabled_upto, 2);
        if scope_flag(s, 8) {
            lemma_apply_fold_push(enabled_upto(s, 8), scope_name(8), scopes_none());
            lemma_apply_scope_name(take_flags(s, 8), 8);
        }
    };
    assert(apply_fold(enabled_upto(s, 10), scopes_none()) == take_flags(s, 10)) by {
        reveal_with_fuel(enabled_upto, 2);
        if scope_flag(s, 9) {
            lemma_apply_fold_push(enabled_upto(s, 9), scope_name(9), scopes_none());
            lemma_apply_scope_name(take_flags(s, 9), 9);
        }
    };
}
#[verifier::rlimit(100)]
#[verifier::spinoff_prover]
proof fn lemma_fold_enabled_step12(s: Scopes)
    requires
        apply_fold(enabled_upto(s, 10), scopes_none()) == take_flags(s, 10),
    ensures
        apply_fold(enabled_upto(s, 12), scopes_none()) == take_flags(s, 12),
{
    assert(apply_fold(enabled_upto(s, 11), scopes_none()) == take_flags(s, 11)) by {
        reveal_with_fuel(enabled_upto, 2);
        if scope_flag(s, 10) {
            lemma_apply_fold_push(enabled_upto(s, 10), scope_name(10), scopes_none());
            lemma_apply_scope_name(take_flags(s, 10), 10);
        }
    };
    assert(apply_fold(enabled_upto(s, 12), scopes_none()) == take_flags(s, 12)) by {
        reveal_with_fuel(enabled_upto, 2);
        if scope_flag(s, 11) {
            lemma_apply_fold_push(enabled_upto(s, 11), scope_name(11), scopes_none());
            lemma_apply_scope_name(take_flags(s, 11), 11);
        }
    };
}
#[verifier::rlimit(100)]
#[verifier::spinoff_prover]
proof fn lemma_fold_enabled_step14(s: Scopes)
    requires
        apply_fold(enabled_upto(s, 12), scopes_none()) == take_flags(s, 12),
    ensures
        apply_fold(enabled_upto(s, 14), scopes_none()) == take_flags(s, 14),
{
    assert(apply_fold(enabled_upto(s, 13), scopes_none()) == take_flags(s, 13)) by {
        reveal_with_fuel(enabled_upto, 2);
        if scope_flag(s, 12) {
            lemma_apply_fold_push(enabled_upto(s, 12), scope_name(12), scopes_none());
            lemma_apply_scope_name(take_flags(s, 12), 12);
        }
    };
    assert(apply_fold(enabled_upto(s, 14), scopes_none()) == take_flags(s, 14)) by {
        reveal_with_fuel(enabled_upto, 2);
        if scope_flag(s, 13) {
            lemma_apply_fold_push(enabled_upto(s, 13), scope_name(13), scopes_none());
            lemma_apply_scope_name(take_flags(s, 13), 13);
        }
    };
}
#[verifier::rlimit(100)]
#[verifier::spinoff_prover]
proof fn lemma_fold_enabled_step16(s: Scopes)
    requires
        apply_fold(enabled_upto(s, 14), scopes_none()) == take_flags(s, 14),
    ensures
        apply_fold(enabled_upto(s, 16), scopes_none()) == take_flags(s, 16),
{
    assert(apply_fold(enabled_upto(s, 15), scopes_none()) == take_flags(s, 15)) by {
        reveal_with_fuel(enabled_upto, 2);
        if scope_flag(s, 14) {
            lemma_apply_fold_push(enabled_upto(s, 14), scope_name(14), scopes_none());
            lemma_apply_scope_name(take_flags(s, 14), 14);
        }
    };
    assert(apply_fold(enabled_upto(s, 16), scopes_none()) == take_flags(s, 16)) by {
        reveal_with_fuel(enabled_upto, 2);
        if scope_flag(s, 15) {
            lemma_apply_fold_push(enabled_upto(s, 15), scope_name(15), scopes_none());
            lemma_apply_scope_name(take_flags(s, 15), 15);
        }
    };
}
#[verifier::rlimit(100)]
#[verifier::spinoff_prover]
proof fn lemma_fold_enabled_step18(s: Scopes)
    requires
        apply_fold(enabled_upto(s, 16), scopes_none()) == take_flags(s, 16),
    ensures
        apply_fold(enabled_upto(s, 18), scopes_none()) == take_flags(s, 18),
{
    assert(apply_fold(enabled_upto(s, 17), scopes_none()) == take_flags(s, 17)) by {
        reveal_with_fuel(enabled_upto, 2);
        if scope_flag(s, 16) {
            lemma_apply_fold_push(enabled_upto(s, 16), scope_name(16), scopes_none());
            lemma_apply_scope_name(take_flags(s, 16), 16);
        }
    };
    assert(apply_fold(enabled_upto(s, 18), scopes_none()) == take_flags(s, 18)) by {
        reveal_with_fuel(enabled_upto, 2);
        if scope_flag(s, 17) {
            lemma_apply_fold_push(enabled_upto(s, 17), scope_name(17), scopes_none());
            lemma_apply_scope_name(take_flags(s, 17), 17);
        }
    };
}
#[verifier::rlimit(100)]
#[verifier::spinoff_prover]
proof fn lemma_fold_enabled_step20(s: Scopes)
    requires
        apply_fold(enabled_upto(s, 18), scopes_none()) == take_flags(s, 18),
    ensures
        apply_fold(enabled_upto(s, 20), scopes_none()) == take_flags(s, 20),
{
    assert(apply_fold(enabled_upto(s, 19), scopes_none()) == take_flags(s, 19)) by {
        reveal_with_fuel(enabled_upto, 2);
        if scope_flag(s, 18) {
            lemma_apply_fold_push(enabled_upto(s, 18), scope_name(18), scopes_none());
            lemma_apply_scope_name(take_flags(s, 18), 18);
        }
    };
    assert(apply_fold(enabled_upto(s, 20), scopes_none()) == take_flags(s, 20)) by {
        reveal_with_fuel(enabled_upto, 2);
        if scope_flag(s, 19) {
            lemma_apply_fold_push(enabled_upto(s, 19), scope_name(19), scopes_none());
            lemma_apply_scope_name(take_flags(s, 19), 19);
        }
    };
}

/// Reading the names of the set flags, in declaration order and starting
/// from the empty set, yields exactly the set flags back.
pub proof fn lemma_fold_enabled(s: Scopes)
    ensures
        apply_fold(enabled_upto(s, scope_count()), scopes_none()) == take_flags(
            s,
            scope_count(),
        ),
{
    lemma_fold_enabled_step02(s);
    lemma_fold_enabled_step04(s);
    lemma_fold_enabled_step06(s);
    lemma_fold_enabled_step08(s);
    lemma_fold_enabled_step10(s);
    lemma_fold_enabled_step12(s);
    lemma_fold_enabled_step14(s);
    lemma_fold_enabled_step16(s);
    lemma_fold_enabled_step18(s);
    lemma_fold_enabled_step20(s);
}

/// Every piece of the enabled-names list is some scope name.
pub proof fn lemma_enabled_pieces_wf(s: Scopes, k: int)
    requires
        0 <= k <= scope_count(),
    ensures
        forall|t: int|
            0 <= t < enabled_upto(s, k).len() ==> #[trigger] enabled_upto(s, k)[t].len() > 0
                && comma_free(enabled_upto(s, k)[t]),
    decreases k,
{
    reveal_with_fuel(enabled_upto, 2);
    lemma_scope_names_wf();
    if k > 0 {
        lemma_enabled_pieces_wf(s, k - 1);
        assert forall|t: int| 0 <= t < enabled_upto(s, k).len() implies #[trigger] enabled_upto(
            s,
            k,
        )[t].len() > 0 && comma_free(enabled_upto(s, k)[t]) by {
            if scope_flag(s, k - 1) {
                assert(enabled_upto(s, k) == enabled_upto(s, k - 1).push(scope_name(k - 1)));
                if t < enabled_upto(s, k - 1).len() {
                    assert(enabled_upto(s, k)[t] == enabled_upto(s, k - 1)[t]);
                } else {
                    assert(enabled_upto(s, k)[t] == scope_name(k - 1));
                }
            } else {
                assert(enabled_upto(s, k) == enabled_upto(s, k - 1));
            }
        }
    }
}

/// Parsing a comma-joined list of nonempty, comma-free pieces, laid out
/// as the suffix of `str` from position `i` on, reads the pieces in
/// order.
pub proof fn lemma_parse_join_at(str: Seq<char>, i: int, l: Seq<Seq<char>>, acc: Scopes)
    requires
        0 <= i <= str.len(),
        str.subrange(i, str.len() as int) == join_commas(l),
        l.len() >= 1,
        forall|t: int| 0 <= t < l.len() ==> #[trigger] l[t].len() > 0 && comma_free(l[t]),
    ensures
        parse_scopes_from(str, i, acc) == apply_fold(l, acc),
    decreases l.len(),
{
    let suffix = str.subrange(i, str.len() as int);
    reveal_with_fuel(apply_fold, 3);
    if l.len() == 1 {
        assert(suffix == l[0]);
        assert forall|j: int| i <= j < str.len() implies str[j] != ',' by {
            assert(str[j] == suffix[j - i]);
        }
        lemma_first_comma_at_found(str, i, str.len() as int);
        assert(str.subrange(i, first_comma_at(str, i)) == l[0]);
        let acc2 = apply_scope_piece_from(acc, l[0], 0);
        assert(l.drop_first() =~= Seq::<Seq<char>>::empty());
        assert(apply_fold(l, acc) == acc2);
    } else {
        let head = l[0];
        let rest = l.drop_first();
        assert(join_commas(l) == head + seq![','] + join_commas(rest));
        let a = i + head.len() as int;
        assert forall|j: int| i <= j < a implies str[j] != ',' by {
            assert(str[j] == suffix[j - i]);
            assert(suffix[j - i] == head[j - i]);
        }
        assert(str[a] == suffix[head.len() as int]);
        assert(suffix[head.len() as int] == ',');
        lemma_first_comma_at_found(str, i, a);
        assert(first_comma_at(str, i) == a);
        assert(str.subrange(i, a) =~= head) by {
            assert forall|j: int| 0 <= j < head.len() implies str.subrange(i, a)[j] == head[j] by {
                assert(str.subrange(i, a)[j] == str[i + j]);
                assert(str[i + j] == suffix[j]);
            }
        }
        let acc2 = apply_scope_piece_from(acc, head, 0);
        assert(str.subrange(a + 1, str.len() as int) =~= join_commas(rest)) by {
            assert forall|j: int|
                0 <= j < str.len() - a - 1 implies str.subrange(a + 1, str.len() as int)[j]
                == join_commas(rest)[j] by {
                assert(str.subrange(a + 1, str.len() as int)[j] == str[a + 1 + j]);
                assert(str[a + 1 + j] == suffix[head.len() + 1 + j]);
                assert(suffix[head.len() + 1 + j] == (head + seq![','] + join_commas(rest))[
                    head.len() + 1 + j]);
            }
        }
        assert(forall|t: int| 0 <= t < rest.len() ==> #[trigger] rest[t].len() > 0 && comma_free(
            rest[t],
        )) by {
            assert(forall|t: int| 0 <= t < rest.len() ==> rest[t] == l[t + 1]);
        }
        lemma_parse_join_at(str, a + 1, rest, acc2);
        assert(parse_scopes_from(str, i, acc) == parse_scopes_from(str, a + 1, acc2));
    }
}

/// The round trip: parsing the comma-joined string form of any scope set
/// reproduces exactly that set.
#[verifier::rlimit(100)]
#[verifier::spinoff_prover]
pub proof fn lemma_scopes_round_trip(s: Scopes)
    ensures
        spec_parse_scopes(spec_scopes_string(s)) == s,
{
    let l = enabled_upto(s, scope_count());
    let joined = join_commas(l);
    lemma_fold_enabled(s);
    assert(take_flags(s, scope_count()) == s);
    if l.len() == 0 {
        assert(parse_scopes_from(joined, 0, scopes_none()) == s) by {
            assert(joined =~= Seq::<char>::empty());
            lemma_first_comma_at_found(joined, 0, 0);
            assert(joined.subrange(0, 0) =~= Seq::<char>::empty());
            lemma_apply_empty_piece(scopes_none());
            assert(apply_fold(l, scopes_none()) == scopes_none());
        };
    } else {
        assert(parse_scopes_from(joined, 0, scopes_none()) == s) by {
            lemma_enabled_pieces_wf(s, scope_count());
            assert(joined.subrange(0, joined.len() as int) =~= joined);
            lemma_parse_join_at(joined, 0, l, scopes_none());
        };
    }
}

} // verus!
