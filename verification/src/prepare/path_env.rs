use vstd::prelude::*;

use crate::text::{
    contains_string, join_path, join_path_spec, join_spec, join_with, lemma_push_contains,
    push_str, split_on, split_spec, views,
};

verus! {

/// The non-empty pieces of `s`, in order.
pub open spec fn nonempty_parts(s: Seq<Seq<char>>) -> Seq<Seq<char>>
    decreases s.len(),
{
    if s.len() == 0 {
        Seq::empty()
    } else {
        let r = nonempty_parts(s.drop_last());
        if s.last().len() > 0 {
            r.push(s.last())
        } else {
            r
        }
    }
}

/// `s` with every repeated piece after its first occurrence removed.
pub open spec fn dedupe(s: Seq<Seq<char>>) -> Seq<Seq<char>>
    decreases s.len(),
{
    if s.len() == 0 {
        Seq::empty()
    } else {
        let d = dedupe(s.drop_last());
        if d.contains(s.last()) {
            d
        } else {
            d.push(s.last())
        }
    }
}

/// Directories the Jenkins agent needs for Docker Desktop, Homebrew tools and
/// Harbor (installed by `uv tool` or `pipx` into `~/.local/bin`), then the system ones.
pub open spec fn agent_dirs(home: Option<Seq<char>>) -> Seq<Seq<char>> {
    let system = seq![
        "/opt/homebrew/bin"@,
        "/usr/local/bin"@,
        "/Applications/Docker.app/Contents/Resources/bin"@,
        "/usr/bin"@,
        "/bin"@,
        "/usr/sbin"@,
        "/sbin"@,
    ];
    match home {
        Some(h) => seq![join_path_spec(h, ".local/bin"@)] + system,
        None => system,
    }
}

/// The non-empty entries of the shell's `PATH`.
pub open spec fn shell_entries(shell_path: Option<Seq<char>>) -> Seq<Seq<char>> {
    match shell_path {
        Some(p) => nonempty_parts(split_spec(p, ':')),
        None => Seq::empty(),
    }
}

/// The directories of the agent's `PATH`: the configuring shell's entries, then the
/// needed directories, each once, first occurrence kept.
pub open spec fn agent_path_entries(shell_path: Option<Seq<char>>, home: Option<Seq<char>>) -> Seq<
    Seq<char>,
> {
    dedupe(shell_entries(shell_path) + agent_dirs(home))
}

/// The agent's `PATH` value.
pub open spec fn agent_path_spec(shell_path: Option<Seq<char>>, home: Option<Seq<char>>) -> Seq<
    char,
> {
    join_spec(agent_path_entries(shell_path, home), seq![':'])
}

/// What `dedupe` keeps: every piece once.
pub proof fn lemma_dedupe(s: Seq<Seq<char>>)
    ensures
        dedupe(s).no_duplicates(),
        forall|x: Seq<char>| dedupe(s).contains(x) <==> s.contains(x),
    decreases s.len(),
{
    if s.len() > 0 {
        lemma_dedupe(s.drop_last());
        let d = dedupe(s.drop_last());
        assert forall|x: Seq<char>| dedupe(s).contains(x) <==> s.contains(x) by {
            lemma_push_contains(s.drop_last(), s.last(), x);
            assert(s.drop_last().push(s.last()) =~= s);
            lemma_push_contains(d, s.last(), x);
        }
    }
}

proof fn lemma_nonempty_parts(s: Seq<Seq<char>>)
    ensures
        forall|x: Seq<char>| nonempty_parts(s).contains(x) <==> (s.contains(x) && x.len() > 0),
    decreases s.len(),
{
    if s.len() > 0 {
        lemma_nonempty_parts(s.drop_last());
        let r = nonempty_parts(s.drop_last());
        assert(s.drop_last().push(s.last()) =~= s);
        assert forall|x: Seq<char>| nonempty_parts(s).contains(x) <==> (s.contains(x) && x.len()
            > 0) by {
            lemma_push_contains(s.drop_last(), s.last(), x);
            lemma_push_contains(r, s.last(), x);
        }
    }
}

proof fn lemma_split_append_plain(x: Seq<char>, y: Seq<char>, sep: char)
    requires
        forall|i: int| 0 <= i < y.len() ==> y[i] != sep,
    ensures
        split_spec(x + y, sep) == split_spec(x, sep).update(
            split_spec(x, sep).len() - 1,
            split_spec(x, sep).last() + y,
        ),
        split_spec(x + y, sep).len() == split_spec(x, sep).len(),
    decreases y.len(),
{
    lemma_split_nonempty(x, sep);
    if y.len() == 0 {
        assert(x + y =~= x);
        let r = split_spec(x, sep);
        assert(r.update(r.len() - 1, r.last() + y) =~= r);
    } else {
        let y0 = y.drop_last();
        lemma_split_append_plain(x, y0, sep);
        assert((x + y).drop_last() =~= x + y0);
        assert((x + y).last() == y.last());
        let r = split_spec(x, sep);
        let r0 = split_spec(x + y0, sep);
        assert(r0.last() == r.last() + y0);
        assert(r0.last().push(y.last()) =~= r.last() + y);
        assert(r0.update(r0.len() - 1, r0.last().push(y.last())) =~= r.update(
            r.len() - 1,
            r.last() + y,
        ));
    }
}

proof fn lemma_split_nonempty(x: Seq<char>, sep: char)
    ensures
        split_spec(x, sep).len() >= 1,
    decreases x.len(),
{
    if x.len() > 0 {
        lemma_split_nonempty(x.drop_last(), sep);
    }
}

/// Joining pieces that hold no separator and splitting the result gives the pieces back.
pub proof fn lemma_split_join(parts: Seq<Seq<char>>, sep: char)
    requires
        parts.len() >= 1,
        forall|i: int, j: int|
            0 <= i < parts.len() && 0 <= j < parts[i].len() ==> #[trigger] parts[i][j] != sep,
    ensures
        split_spec(join_spec(parts, seq![sep]), sep) == parts,
    decreases parts.len(),
{
    if parts.len() == 1 {
        lemma_split_append_plain(Seq::<char>::empty(), parts[0], sep);
        assert(Seq::<char>::empty() + parts[0] =~= parts[0]);
        assert(split_spec(Seq::<char>::empty(), sep) =~= seq![Seq::<char>::empty()]);
        assert(Seq::<char>::empty() + parts[0] =~= parts[0]);
        assert(split_spec(parts[0], sep) =~= parts);
    } else {
        let init = parts.drop_last();
        assert forall|i: int, j: int| 0 <= i < init.len() && 0 <= j < init[i].len() implies #[trigger] init[i][j]
            != sep by {
            assert(init[i] == parts[i]);
        }
        lemma_split_join(init, sep);
        let jn = join_spec(init, seq![sep]);
        let x = jn + seq![sep];
        assert(x.drop_last() =~= jn);
        assert(x.last() == sep);
        assert(split_spec(x, sep) == split_spec(jn, sep).push(Seq::<char>::empty()));
        let last = parts.last();
        assert forall|j: int| 0 <= j < last.len() implies last[j] != sep by {
            assert(parts[parts.len() - 1][j] != sep);
        }
        lemma_split_append_plain(x, last, sep);
        let r = split_spec(x, sep);
        assert(r.last() + last =~= last);
        assert(r.update(r.len() - 1, r.last() + last) =~= parts);
        assert(join_spec(parts, seq![sep]) == x + last);
    }
}

proof fn lemma_split_pieces_plain(p: Seq<char>, sep: char)
    ensures
        forall|i: int, j: int|
            0 <= i < split_spec(p, sep).len() && 0 <= j < split_spec(p, sep)[i].len()
                ==> #[trigger] split_spec(p, sep)[i][j] != sep,
    decreases p.len(),
{
    if p.len() > 0 {
        lemma_split_pieces_plain(p.drop_last(), sep);
        lemma_split_nonempty(p.drop_last(), sep);
        let r = split_spec(p.drop_last(), sep);
        if p.last() != sep {
            let u = r.update(r.len() - 1, r.last().push(p.last()));
            assert forall|i: int, j: int| 0 <= i < u.len() && 0 <= j < u[i].len() implies #[trigger] u[i][j]
                != sep by {
                if i == r.len() - 1 && j == r.last().len() {
                } else if i == r.len() - 1 {
                    assert(u[i][j] == r[i][j]);
                } else {
                    assert(u[i] == r[i]);
                }
            }
        } else {
            let u = r.push(Seq::<char>::empty());
            assert forall|i: int, j: int| 0 <= i < u.len() && 0 <= j < u[i].len() implies #[trigger] u[i][j]
                != sep by {
                assert(u[i] == r[i]);
            }
        }
    }
}

proof fn lemma_agent_dirs_plain(home: Option<Seq<char>>)
    requires
        match home {
            Some(h) => !crate::text::has_char(h, ':'),
            None => true,
        },
    ensures
        forall|i: int, j: int|
            0 <= i < agent_dirs(home).len() && 0 <= j < agent_dirs(home)[i].len()
                ==> #[trigger] agent_dirs(home)[i][j] != ':',
{
    reveal_strlit("/opt/homebrew/bin");
    reveal_strlit("/usr/local/bin");
    reveal_strlit("/Applications/Docker.app/Contents/Resources/bin");
    reveal_strlit("/usr/bin");
    reveal_strlit("/bin");
    reveal_strlit("/usr/sbin");
    reveal_strlit("/sbin");
    reveal_strlit(".local/bin");
    let d = agent_dirs(home);
    assert forall|i: int, j: int| 0 <= i < d.len() && 0 <= j < d[i].len() implies #[trigger] d[i][j]
        != ':' by {
        if let Some(h) = home {
            if i == 0 {
                let x = join_path_spec(h, ".local/bin"@);
                if j < h.len() {
                    assert(x[j] == h[j]);
                } else {
                    assert(d[i][j] != ':');
                }
            }
        }
    }
}

fn add_unique(entries: &mut Vec<String>, x: &str)
    ensures
        views(final(entries)@) == if views(old(entries)@).contains(x@) {
            views(old(entries)@)
        } else {
            views(old(entries)@).push(x@)
        },
{
    if !contains_string(entries, x) {
        push_str(entries, x);
    }
}

fn agent_dir_list(home: Option<&str>) -> (r: Vec<String>)
    ensures
        views(r@) == agent_dirs(match home {
            Some(h) => Some(h@),
            None => None,
        }),
{
    let mut v: Vec<String> = Vec::new();
    if let Some(h) = home {
        let local = join_path(h, ".local/bin");
        push_str(&mut v, local.as_str());
    }
    push_str(&mut v, "/opt/homebrew/bin");
    push_str(&mut v, "/usr/local/bin");
    push_str(&mut v, "/Applications/Docker.app/Contents/Resources/bin");
    push_str(&mut v, "/usr/bin");
    push_str(&mut v, "/bin");
    push_str(&mut v, "/usr/sbin");
    push_str(&mut v, "/sbin");
    assert(views(v@) =~= agent_dirs(
        match home {
            Some(h) => Some(h@),
            None => None,
        },
    ));
    v
}

/// The `PATH` for the Jenkins agent process (a LaunchAgent gets only `/usr/bin:/bin`):
/// the shell's `PATH` entries merged with the directories Docker Desktop, Homebrew
/// tools and Harbor need.
pub fn agent_tool_path(shell_path: Option<&str>, home: Option<&str>) -> (r: String)
    ensures
        r@ == agent_path_spec(
            match shell_path {
                Some(p) => Some(p@),
                None => None,
            },
            match home {
                Some(h) => Some(h@),
                None => None,
            },
        ),
{
    let ghost sp = match shell_path {
        Some(p) => Some(p@),
        None => None,
    };
    let ghost hp = match home {
        Some(h) => Some(h@),
        None => None,
    };
    let ghost shell = match sp {
        Some(p) => nonempty_parts(split_spec(p, ':')),
        None => Seq::<Seq<char>>::empty(),
    };
    let mut entries: Vec<String> = Vec::new();
    if let Some(p) = shell_path {
        let parts = split_on(p, ':');
        let mut i: usize = 0;
        assert(views(parts@).take(0) =~= Seq::<Seq<char>>::empty());
        while i < parts.len()
            invariant
                views(parts@) == split_spec(p@, ':'),
                i <= parts.len(),
                views(entries@) == dedupe(nonempty_parts(views(parts@).take(i as int))),
            decreases parts.len() - i,
        {
            let ghost before = views(parts@).take(i as int);
            assert(views(parts@).take(i + 1).drop_last() =~= before);
            assert(views(parts@).take(i + 1).last() == parts@[i as int]@);
            let part = &parts[i];
            if part.unicode_len() > 0 {
                assert(nonempty_parts(views(parts@).take(i + 1)) == nonempty_parts(before).push(
                    part@,
                ));
                let ghost n = nonempty_parts(before);
                assert(n.push(part@).drop_last() =~= n);
                add_unique(&mut entries, part.as_str());
            } else {
                assert(nonempty_parts(views(parts@).take(i + 1)) == nonempty_parts(before));
            }
            i = i + 1;
        }
        assert(views(parts@).take(parts.len() as int) =~= views(parts@));
    }
    assert(views(entries@) == dedupe(shell));
    let dirs = agent_dir_list(home);
    let mut j: usize = 0;
    assert(shell + views(dirs@).take(0) =~= shell);
    while j < dirs.len()
        invariant
            views(dirs@) == agent_dirs(hp),
            j <= dirs.len(),
            views(entries@) == dedupe(shell + views(dirs@).take(j as int)),
        decreases dirs.len() - j,
    {
        let ghost c = shell + views(dirs@).take(j as int);
        assert((shell + views(dirs@).take(j + 1)) =~= c.push(dirs@[j as int]@));
        assert(c.push(dirs@[j as int]@).drop_last() =~= c);
        add_unique(&mut entries, dirs[j].as_str());
        j = j + 1;
    }
    assert(views(dirs@).take(dirs.len() as int) =~= views(dirs@));
    let r = join_with(&entries, ":");
    proof {
        reveal_strlit(":");
        assert(":"@ =~= seq![':']);
    }
    r
}

/// The agent's `PATH` lists each directory once, holds every needed directory and
/// every entry of the shell's `PATH`, and splits back into exactly those entries.
pub proof fn lemma_agent_path(shell_path: Option<Seq<char>>, home: Option<Seq<char>>)
    requires
        match home {
            Some(h) => !crate::text::has_char(h, ':'),
            None => true,
        },
    ensures
        agent_path_entries(shell_path, home).no_duplicates(),
        forall|d: Seq<char>|
            #[trigger] agent_dirs(home).contains(d) ==> agent_path_entries(shell_path, home).contains(d),
        forall|e: Seq<char>|
            #[trigger] shell_entries(shell_path).contains(e) ==> agent_path_entries(
                shell_path,
                home,
            ).contains(e),
        split_spec(agent_path_spec(shell_path, home), ':') == agent_path_entries(shell_path, home),
{
    let shell = match shell_path {
        Some(p) => nonempty_parts(split_spec(p, ':')),
        None => Seq::<Seq<char>>::empty(),
    };
    let all = shell + agent_dirs(home);
    lemma_dedupe(all);
    if let Some(p) = shell_path {
        lemma_nonempty_parts(split_spec(p, ':'));
        lemma_split_pieces_plain(p, ':');
    }
    assert forall|d: Seq<char>| #[trigger] agent_dirs(home).contains(d) implies all.contains(d) by {
        let k = choose|k: int| 0 <= k < agent_dirs(home).len() && agent_dirs(home)[k] == d;
        assert(all[shell.len() + k] == d);
    }
    assert forall|e: Seq<char>| #[trigger] shell_entries(shell_path).contains(e) implies all.contains(e) by {
        let k = choose|k: int| 0 <= k < shell.len() && shell[k] == e;
        assert(all[k] == e);
    }
    let entries = dedupe(all);
    assert(agent_dirs(home).contains(agent_dirs(home)[0]));
    assert(entries.contains(agent_dirs(home)[0]));
    assert forall|i: int, j: int| 0 <= i < entries.len() && 0 <= j < entries[i].len() implies #[trigger] entries[i][j]
        != ':' by {
        assert(entries.contains(entries[i]));
        assert(all.contains(entries[i]));
        let k = choose|k: int| 0 <= k < all.len() && all[k] == entries[i];
        if k < shell.len() {
            assert(shell.contains(all[k]));
            let p = shell_path->0;
            assert(split_spec(p, ':').contains(all[k]));
            let m = choose|m: int| 0 <= m < split_spec(p, ':').len() && split_spec(p, ':')[m] == all[k];
            assert(split_spec(p, ':')[m][j] != ':');
        } else {
            assert(all[k] == agent_dirs(home)[k - shell.len()]);
            lemma_agent_dirs_plain(home);
            assert(agent_dirs(home).contains(entries[i]));
        }
    }
    lemma_split_join(entries, ':');
}

/// A character of one piece is a character of the joined pieces.
proof fn lemma_join_has_char(parts: Seq<Seq<char>>, sep: Seq<char>, i: int, c: char)
    requires
        0 <= i < parts.len(),
        crate::text::has_char(parts[i], c),
    ensures
        crate::text::has_char(join_spec(parts, sep), c),
    decreases parts.len(),
{
    let j = join_spec(parts, sep);
    let k = choose|k: int| 0 <= k < parts[i].len() && parts[i][k] == c;
    if parts.len() == 1 {
        assert(j[k] == c);
    } else if i == parts.len() - 1 {
        let pre = join_spec(parts.drop_last(), sep) + sep;
        assert(j == pre + parts.last());
        assert(j[pre.len() + k] == c);
    } else {
        lemma_join_has_char(parts.drop_last(), sep, i, c);
        let pre = join_spec(parts.drop_last(), sep);
        let m = choose|m: int| 0 <= m < pre.len() && pre[m] == c;
        assert(j == pre + sep + parts.last());
        assert(j[m] == c);
    }
}

/// The agent's `PATH` is never empty and always names a directory: it holds `/`.
pub proof fn lemma_agent_path_nonempty(shell_path: Option<Seq<char>>, home: Option<Seq<char>>)
    ensures
        agent_path_spec(shell_path, home).len() > 0,
        crate::text::has_char(agent_path_spec(shell_path, home), '/'),
{
    let all = shell_entries(shell_path) + agent_dirs(home);
    let dirs = agent_dirs(home);
    let usr = "/usr/bin"@;
    assert(dirs[dirs.len() - 4] == usr);
    assert(all[shell_entries(shell_path).len() + dirs.len() - 4] == usr);
    assert(all.contains(usr));
    lemma_dedupe(all);
    let entries = agent_path_entries(shell_path, home);
    assert(entries.contains(usr));
    let i = choose|i: int| 0 <= i < entries.len() && entries[i] == usr;
    reveal_strlit("/usr/bin");
    assert(usr[0] == '/');
    lemma_join_has_char(entries, seq![':'], i, '/');
}

} // verus!
