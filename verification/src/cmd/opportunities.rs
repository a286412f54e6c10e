//! `opportunities`: a ranked menu of concrete next commands that earn
//! aCOM: contribution types first, then hot topics to reply to, then
//! governance proposals awaiting review.

use vstd::prelude::*;

use crate::output::{Internal, Output, hints, succeeded};
use crate::text::{append_str, decimal, decimal_u64, spec_decimal};

verus! {

/// What the menu reads from one contribution category.
pub struct Category {
    /// The category's `type`, when it is a string.
    pub ty: Option<String>,
    /// How many contributions of this type were approved, when given.
    pub count: Option<i64>,
    /// The category's base score as an integer key with the same order
    /// (a higher key pays more).
    pub score: i64,
}

/// Inserts `x` into a list ranked by score, highest first: after every
/// entry whose score is at least `x`'s, so equal scores keep their order.
pub open spec fn rank_insert(s: Seq<Category>, x: Category) -> Seq<Category>
    decreases s.len(),
{
    if s.len() == 0 {
        seq![x]
    } else if s.last().score >= x.score {
        s.push(x)
    } else {
        rank_insert(s.drop_last(), x).push(s.last())
    }
}

/// The categories ranked by score, highest first; equal scores keep the
/// server's order.
pub open spec fn spec_rank(s: Seq<Category>) -> Seq<Category>
    decreases s.len(),
{
    if s.len() == 0 {
        seq![]
    } else {
        rank_insert(spec_rank(s.drop_last()), s.last())
    }
}

pub open spec fn ranked_desc(s: Seq<Category>) -> bool {
    forall|i: int, j: int| 0 <= i < j < s.len() ==> #[trigger] s[i].score >= #[trigger] s[j].score
}

proof fn lemma_rank_insert_at(s: Seq<Category>, x: Category, j: int)
    requires
        0 <= j <= s.len(),
        forall|k: int| j <= k < s.len() ==> #[trigger] s[k].score < x.score,
        j == 0 || s[j - 1].score >= x.score,
    ensures
        rank_insert(s, x) == s.take(j).push(x) + s.skip(j),
    decreases s.len(),
{
    if s.len() == j {
        if j == 0 {
            assert(s.take(j).push(x) + s.skip(j) =~= seq![x]);
        } else {
            assert(s.take(j).push(x) + s.skip(j) =~= s.push(x));
        }
    } else {
        let f = s.drop_last();
        assert forall|k: int| j <= k < f.len() implies #[trigger] f[k].score < x.score by {
            assert(f[k] == s[k]);
        }
        if j > 0 {
            assert(f[j - 1] == s[j - 1]);
        }
        lemma_rank_insert_at(f, x, j);
        assert(s.last().score < x.score);
        assert(f.take(j).push(x) + f.skip(j) + seq![s.last()] =~= s.take(j).push(x) + s.skip(j));
    }
}

proof fn lemma_rank_insert_props(s: Seq<Category>, x: Category)
    requires
        ranked_desc(s),
    ensures
        ranked_desc(rank_insert(s, x)),
        rank_insert(s, x).to_multiset() == s.to_multiset().insert(x),
        rank_insert(s, x).len() == s.len() + 1,
    decreases s.len(),
{
    broadcast use vstd::seq_lib::group_to_multiset_ensures;

    if s.len() == 0 {
        assert(seq![x] =~= Seq::<Category>::empty().push(x));
    } else if s.last().score >= x.score {
    } else {
        let f = s.drop_last();
        let l = s.last();
        assert forall|i: int, j: int| 0 <= i < j < f.len() implies #[trigger] f[i].score
            >= #[trigger] f[j].score by {
            assert(f[i] == s[i] && f[j] == s[j]);
        }
        lemma_rank_insert_props(f, x);
        let r = rank_insert(f, x);
        assert(s =~= f.push(l));
        assert(r.to_multiset().insert(l) =~= f.to_multiset().insert(l).insert(x));
        assert forall|i: int| 0 <= i < r.len() implies #[trigger] r[i].score >= l.score by {
            assert(r.to_multiset().count(r[i]) > 0) by {
                assert(r.contains(r[i]));
            }
            assert(f.to_multiset().insert(x).count(r[i]) > 0);
            if r[i] != x {
                assert(f.to_multiset().count(r[i]) > 0);
                assert(f.contains(r[i]));
                let k = choose|k: int| 0 <= k < f.len() && f[k] == r[i];
                assert(s[k] == f[k]);
                assert(s[k].score >= s[s.len() - 1].score);
            }
        }
        let rl = r.push(l);
        assert forall|i: int, j: int| 0 <= i < j < rl.len() implies #[trigger] rl[i].score
            >= #[trigger] rl[j].score by {
            if j < r.len() {
                assert(rl[i] == r[i] && rl[j] == r[j]);
            } else {
                assert(rl[i] == r[i]);
            }
        }
    }
}

/// Law: ranking orders the categories by score, highest first, and
/// keeps exactly the same categories.
pub proof fn law_rank_sorted_permutation(s: Seq<Category>)
    ensures
        ranked_desc(spec_rank(s)),
        spec_rank(s).to_multiset() == s.to_multiset(),
        spec_rank(s).len() == s.len(),
    decreases s.len(),
{
    broadcast use vstd::seq_lib::group_to_multiset_ensures;

    if s.len() == 0 {
        assert(spec_rank(s) =~= s);
    } else {
        law_rank_sorted_permutation(s.drop_last());
        lemma_rank_insert_props(spec_rank(s.drop_last()), s.last());
        assert(s =~= s.drop_last().push(s.last()));
    }
}

/// Ranks the categories by score, highest first, keeping the server's
/// order among equal scores.
pub fn rank_categories(cats: Vec<Category>) -> (res: Vec<Category>)
    ensures
        res@ == spec_rank(cats@),
{
    let ghost orig = cats@;
    let mut rest = cats;
    let mut out: Vec<Category> = Vec::new();
    let n = rest.len();
    let mut i: usize = 0;
    assert(orig.skip(0) =~= orig);
    assert(orig.take(0) =~= Seq::<Category>::empty());
    while i < n
        invariant
            i <= n,
            n == orig.len(),
            rest@ == orig.skip(i as int),
            out@ == spec_rank(orig.take(i as int)),
        decreases n - i,
    {
        let x = rest.remove(0);
        assert(x == orig[i as int]);
        assert(rest@ =~= orig.skip(i + 1));
        proof {
            let t = orig.take(i + 1);
            assert(t.drop_last() =~= orig.take(i as int));
            assert(t.last() == orig[i as int]);
        }
        let mut j: usize = out.len();
        while j > 0 && out[j - 1].score < x.score
            invariant
                j <= out@.len(),
                forall|k: int| j <= k < out@.len() ==> #[trigger] out@[k].score < x.score,
            decreases j,
        {
            j = j - 1;
        }
        proof {
            lemma_rank_insert_at(out@, x, j as int);
        }
        let ghost before = out@;
        out.insert(j, x);
        assert(out@ =~= before.take(j as int).push(x) + before.skip(j as int));
        i = i + 1;
    }
    assert(orig.take(n as int) =~= orig);
    out
}


/// What the menu reads from one hot topic.
pub struct Topic {
    pub id: Option<i64>,
    pub title: Option<String>,
    pub reply_count: Option<i64>,
    pub views: Option<i64>,
}

/// What the menu reads from one governance proposal awaiting review.
pub struct Proposal {
    pub id: Option<i64>,
    pub title: Option<String>,
}

/// One entry of the menu, with the command to run and why.
pub enum MenuItem {
    Contribution { ty: String, cmd: String, why: String },
    Reply { post_id: i64, post_title: String, cmd: String, why: String },
    Review { pr_id: i64, pr_title: String, cmd: String, why: String },
}

/// The mathematical content of a menu entry.
pub enum MenuEntry {
    Contribution { ty: Seq<char>, cmd: Seq<char>, why: Seq<char> },
    Reply { post_id: i64, post_title: Seq<char>, cmd: Seq<char>, why: Seq<char> },
    Review { pr_id: i64, pr_title: Seq<char>, cmd: Seq<char>, why: Seq<char> },
}

impl View for MenuItem {
    type V = MenuEntry;

    open spec fn view(&self) -> MenuEntry {
        match self {
            MenuItem::Contribution { ty, cmd, why } => MenuEntry::Contribution {
                ty: ty@,
                cmd: cmd@,
                why: why@,
            },
            MenuItem::Reply { post_id, post_title, cmd, why } => MenuEntry::Reply {
                post_id: *post_id,
                post_title: post_title@,
                cmd: cmd@,
                why: why@,
            },
            MenuItem::Review { pr_id, pr_title, cmd, why } => MenuEntry::Review {
                pr_id: *pr_id,
                pr_title: pr_title@,
                cmd: cmd@,
                why: why@,
            },
        }
    }
}

pub open spec fn or_zero(o: Option<i64>) -> i64 {
    match o {
        Some(v) => v,
        None => 0,
    }
}

pub open spec fn or_empty(o: Option<String>) -> Seq<char> {
    match o {
        Some(s) => s@,
        None => seq![],
    }
}

/// A category offers a submit command unless its type is missing or empty.
pub open spec fn contribution_entry(c: Category) -> Option<MenuEntry> {
    let ty = or_empty(c.ty);
    if ty.len() == 0 {
        None
    } else {
        Some(
            MenuEntry::Contribution {
                ty,
                cmd: "community-agent contribute submit --type "@ + ty
                    + " --title \"<short title>\" --description \"<details>\""@,
                why: "category active \u{2014} "@ + spec_decimal(or_zero(c.count) as int)
                    + " contribution(s) approved historically"@,
            },
        )
    }
}

/// A hot topic offers a reply command unless its id is missing or 0.
pub open spec fn reply_entry(t: Topic) -> Option<MenuEntry> {
    let id = or_zero(t.id);
    if id == 0 {
        None
    } else {
        Some(
            MenuEntry::Reply {
                post_id: id,
                post_title: or_empty(t.title),
                cmd: "community-agent reply --post-id "@ + spec_decimal(id as int)
                    + " --body \"<your reply>\""@,
                why: "hot topic \u{2014} "@ + spec_decimal(or_zero(t.reply_count) as int)
                    + " replies, "@ + spec_decimal(or_zero(t.views) as int) + " views"@,
            },
        )
    }
}

/// A proposal offers a review pointer unless its id is missing or 0.
pub open spec fn review_entry(p: Proposal) -> Option<MenuEntry> {
    let id = or_zero(p.id);
    if id == 0 {
        None
    } else {
        Some(
            MenuEntry::Review {
                pr_id: id,
                pr_title: or_empty(p.title),
                cmd: "community-agent feed   # then review PR #"@ + spec_decimal(id as int)
                    + " when governance commands ship"@,
                why: "PR awaiting review \u{2014} peer_review contributions earn aCOM"@,
            },
        )
    }
}

pub open spec fn first_n<A>(s: Seq<A>, n: int) -> Seq<A> {
    if s.len() <= n {
        s
    } else {
        s.take(n)
    }
}

/// The menu: entries from the first 3 of `cats`, then from the first 3
/// hot topics, then from the first 2 proposals, each in order. (The
/// categories given here are already ranked by score.)
pub open spec fn spec_menu(cats: Seq<Category>, topics: Seq<Topic>, prs: Seq<Proposal>) -> Seq<
    MenuEntry,
> {
    first_n(cats, 3).filter_map(|c: Category| contribution_entry(c)) + first_n(topics, 3).filter_map(
        |t: Topic| reply_entry(t),
    ) + first_n(prs, 2).filter_map(|p: Proposal| review_entry(p))
}

pub open spec fn menu_view(m: Seq<MenuItem>) -> Seq<MenuEntry> {
    m.map_values(|i: MenuItem| i@)
}

fn contribution_item(c: &Category) -> (res: Option<MenuItem>)
    ensures
        match contribution_entry(*c) {
            Some(e) => res matches Some(i) && i@ == e,
            None => res is None,
        },
{
    let ty: &str = match &c.ty {
        Some(t) => t.as_str(),
        None => "",
    };
    proof {
        reveal_strlit("");
    }
    if ty.unicode_len() == 0 {
        return None;
    }
    let mut cmd = String::new();
    append_str(&mut cmd, "community-agent contribute submit --type ");
    append_str(&mut cmd, ty);
    append_str(&mut cmd, " --title \"<short title>\" --description \"<details>\"");
    let mut why = String::new();
    append_str(&mut why, "category active \u{2014} ");
    let n = decimal(
        match c.count {
            Some(v) => v,
            None => 0,
        },
    );
    append_str(&mut why, &n);
    append_str(&mut why, " contribution(s) approved historically");
    Some(MenuItem::Contribution { ty: ty.to_owned(), cmd, why })
}

fn reply_item(t: &Topic) -> (res: Option<MenuItem>)
    ensures
        match reply_entry(*t) {
            Some(e) => res matches Some(i) && i@ == e,
            None => res is None,
        },
{
    let id = match t.id {
        Some(v) => v,
        None => 0,
    };
    if id == 0 {
        return None;
    }
    let title = match &t.title {
        Some(s) => s.clone(),
        None => String::new(),
    };
    let mut cmd = String::new();
    append_str(&mut cmd, "community-agent reply --post-id ");
    let d = decimal(id);
    append_str(&mut cmd, &d);
    append_str(&mut cmd, " --body \"<your reply>\"");
    let mut why = String::new();
    append_str(&mut why, "hot topic \u{2014} ");
    let r = decimal(
        match t.reply_count {
            Some(v) => v,
            None => 0,
        },
    );
    append_str(&mut why, &r);
    append_str(&mut why, " replies, ");
    let v = decimal(
        match t.views {
            Some(v) => v,
            None => 0,
        },
    );
    append_str(&mut why, &v);
    append_str(&mut why, " views");
    Some(MenuItem::Reply { post_id: id, post_title: title, cmd, why })
}

fn review_item(p: &Proposal) -> (res: Option<MenuItem>)
    ensures
        match review_entry(*p) {
            Some(e) => res matches Some(i) && i@ == e,
            None => res is None,
        },
{
    let id = match p.id {
        Some(v) => v,
        None => 0,
    };
    if id == 0 {
        return None;
    }
    let title = match &p.title {
        Some(s) => s.clone(),
        None => String::new(),
    };
    let mut cmd = String::new();
    append_str(&mut cmd, "community-agent feed   # then review PR #");
    let d = decimal(id);
    append_str(&mut cmd, &d);
    append_str(&mut cmd, " when governance commands ship");
    Some(
        MenuItem::Review {
            pr_id: id,
            pr_title: title,
            cmd,
            why: "PR awaiting review \u{2014} peer_review contributions earn aCOM".to_owned(),
        },
    )
}

/// Builds the ranked menu: the categories are ranked by score first.
pub fn build_menu(categories: Vec<Category>, topics: &Vec<Topic>, prs: &Vec<Proposal>) -> (menu: Vec<
    MenuItem,
>)
    ensures
        menu_view(menu@) == spec_menu(spec_rank(categories@), topics@, prs@),
{
    let cats = rank_categories(categories);
    let mut menu: Vec<MenuItem> = Vec::new();
    let nc = if cats.len() < 3 {
        cats.len()
    } else {
        3
    };
    let mut i: usize = 0;
    while i < nc
        invariant
            i <= nc,
            nc as int == if cats@.len() < 3 {
                cats@.len() as int
            } else {
                3
            },
            menu_view(menu@) == cats@.take(i as int).filter_map(|c: Category| contribution_entry(c)),
        decreases nc - i,
    {
        let ghost before = menu_view(menu@);
        proof {
            let t = cats@.take(i + 1);
            assert(t.drop_last() =~= cats@.take(i as int));
            assert(t.last() == cats@[i as int]);
        }
        match contribution_item(&cats[i]) {
            Some(item) => {
                menu.push(item);
                assert(menu_view(menu@) =~= before + seq![menu@.last()@]);
            },
            None => {},
        }
        i = i + 1;
    }
    let ghost part1 = menu_view(menu@);
    assert(cats@.take(nc as int) =~= first_n(cats@, 3));
    let nt = if topics.len() < 3 {
        topics.len()
    } else {
        3
    };
    let mut j: usize = 0;
    assert(topics@.take(0).filter_map(|t: Topic| reply_entry(t)) =~= Seq::<MenuEntry>::empty());
    while j < nt
        invariant
            j <= nt,
            nt as int == if topics@.len() < 3 {
                topics@.len() as int
            } else {
                3
            },
            menu_view(menu@) == part1 + topics@.take(j as int).filter_map(|t: Topic| reply_entry(t)),
        decreases nt - j,
    {
        let ghost before = menu_view(menu@);
        proof {
            let t = topics@.take(j + 1);
            assert(t.drop_last() =~= topics@.take(j as int));
            assert(t.last() == topics@[j as int]);
        }
        match reply_item(&topics[j]) {
            Some(item) => {
                menu.push(item);
                assert(menu_view(menu@) =~= before + seq![menu@.last()@]);
            },
            None => {},
        }
        j = j + 1;
    }
    let ghost part2 = menu_view(menu@);
    assert(topics@.take(nt as int) =~= first_n(topics@, 3));
    let np = if prs.len() < 2 {
        prs.len()
    } else {
        2
    };
    let mut k: usize = 0;
    assert(prs@.take(0).filter_map(|p: Proposal| review_entry(p)) =~= Seq::<MenuEntry>::empty());
    while k < np
        invariant
            k <= np,
            np as int == if prs@.len() < 2 {
                prs@.len() as int
            } else {
                2
            },
            menu_view(menu@) == part2 + prs@.take(k as int).filter_map(|p: Proposal| review_entry(p)),
        decreases np - k,
    {
        let ghost before = menu_view(menu@);
        proof {
            let t = prs@.take(k + 1);
            assert(t.drop_last() =~= prs@.take(k as int));
            assert(t.last() == prs@[k as int]);
        }
        match review_item(&prs[k]) {
            Some(item) => {
                menu.push(item);
                assert(menu_view(menu@) =~= before + seq![menu@.last()@]);
            },
            None => {},
        }
        k = k + 1;
    }
    assert(prs@.take(np as int) =~= first_n(prs@, 2));
    menu
}

/// The proposals to consider: the staging record's `prs` list, else the
/// record itself when it is a list, else none.
pub fn staging_proposals(prs_field: Option<Vec<Proposal>>, whole: Option<Vec<Proposal>>) -> (res: Vec<Proposal>)
    ensures
        res@ == match prs_field {
            Some(v) => v@,
            None => match whole {
                Some(w) => w@,
                None => Seq::<Proposal>::empty(),
            },
        },
{
    match prs_field {
        Some(v) => v,
        None => match whole {
            Some(w) => w,
            None => Vec::new(),
        },
    }
}

/// The menu's summary line.
pub open spec fn spec_menu_message(n: nat) -> Seq<char> {
    if n == 0 {
        "no opportunities surfaced \u{2014} the server may be cold; try again in a moment"@
    } else {
        spec_decimal(n as int) + " opportunit"@ + (if n == 1 {
            "y"@
        } else {
            "ies"@
        }) + " ranked by ROI"@
    }
}

/// The menu output.
pub fn opportunities_ok(menu_len: usize, data: serde_json::Value) -> (out: Output)
    ensures
        succeeded(out, spec_menu_message(menu_len as nat), data),
        hints(out.internal) == (
            Some("pick_from_menu"@),
            None::<Seq<char>>,
            Some(
                "`menu` items are ordered: contribution submit > hot reply > PR review. Each carries a ready-to-run cmd."@,
            ),
        ),
{
    let mut msg = String::new();
    if menu_len == 0 {
        append_str(
            &mut msg,
            "no opportunities surfaced \u{2014} the server may be cold; try again in a moment",
        );
    } else {
        let d = decimal_u64(menu_len as u64);
        append_str(&mut msg, &d);
        append_str(&mut msg, " opportunit");
        if menu_len == 1 {
            append_str(&mut msg, "y");
        } else {
            append_str(&mut msg, "ies");
        }
        append_str(&mut msg, " ranked by ROI");
    }
    Output::ok(
        msg,
        data,
        Internal::action_hint(
            "pick_from_menu",
            "`menu` items are ordered: contribution submit > hot reply > PR review. Each carries a ready-to-run cmd.",
        ),
    )
}

} // verus!
