use orca::scopes::Scopes;
use orca::sub::{Sort, SortTime};

#[test]
fn post_sort() {
    assert_eq!(Sort::Top(SortTime::All).param(), &[("sort", "top"), ("t", "all")])
}

#[test]
fn all_scopes_round_trip() {
    let all = Scopes::all();
    let joined = all.to_string();
    let parsed = Scopes::parse(joined.as_str());
    assert_eq!(parsed, all);
}

#[test]
fn empty_scopes_string_is_empty() {
    assert_eq!(Scopes::empty().to_string(), "");
}

#[test]
fn empty_scopes_round_trip() {
    let empty = Scopes::empty();
    let parsed = Scopes::parse(empty.to_string().as_str());
    assert_eq!(parsed, empty);
}

#[test]
fn partial_scopes_round_trip() {
    let mut s = Scopes::empty();
    s.identity = true;
    s.read = true;
    s.account = true;
    assert_eq!(s.to_string(), "identity,read,account");
    assert_eq!(Scopes::parse("identity,read,account"), s);
}

#[test]
fn parse_ignores_unknown_names() {
    let mut expected = Scopes::empty();
    expected.read = true;
    assert_eq!(Scopes::parse("read,frobnicate"), expected);
}

#[test]
fn all_scopes_string_lists_every_name() {
    assert_eq!(
        Scopes::all().to_string(),
        "identity,edit,flair,history,modconfig,modflair,modlog,modposts,modwiki,mysubreddits,\
         privatemessages,read,report,save,submit,subscribe,vote,wikiedit,wikiread,account"
    );
}

#[test]
fn and_or_follow_the_flags() {
    let mut a = Scopes::empty();
    a.identity = true;
    a.read = true;
    let mut b = Scopes::empty();
    b.read = true;
    b.submit = true;
    let both = a.and(b);
    assert!(both.read && !both.identity && !both.submit);
    let either = a.or(b);
    assert!(either.read && either.identity && either.submit && !either.vote);
}

#[test]
fn sort_params_cover_all_variants() {
    assert_eq!(Sort::Hot.param(), &[("sort", "hot")]);
    assert_eq!(Sort::New.param(), &[("sort", "new")]);
    assert_eq!(Sort::Rising.param(), &[("sort", "rising")]);
    assert_eq!(
        Sort::Controversial(SortTime::Week).param(),
        &[("sort", "controversial"), ("t", "week")]
    );
    assert_eq!(SortTime::Hour.param(), ("t", "hour"));
}
