//! The directories in which the configuration file is searched.
use vstd::prelude::*;

use crate::errors::opt_view;
use crate::text::{chars_of, push_char, split_on, split_on_char, views};

verus! {

/// Whether `p` is an absolute path on Unix: it starts with `/`.
pub open spec fn is_absolute(p: Seq<char>) -> bool {
    p.len() > 0 && p[0] == '/'
}

/// `p` where it is absolute, with `dirs_sys::is_absolute_path`, which keeps
/// a path that `PathBuf::is_absolute` accepts. The claim is that of Unix
/// targets, the only ones this crate builds for: a path is absolute where
/// it starts with `/`.
#[verifier::external_body]
fn absolute_path(p: &str) -> (res: Option<String>)
    ensures
        res is Some <==> is_absolute(p@),
        res matches Some(s) ==> s@ == p@,
{
    match dirs_sys::is_absolute_path(p.into()) {
        Some(path) => Some(path.to_string_lossy().into_owned()),
        None => None,
    }
}

/// The views of a list of optional paths.
pub open spec fn opt_views(v: Seq<Option<String>>) -> Seq<Option<Seq<char>>> {
    v.map_values(|o: Option<String>| opt_view(o))
}

/// The directories that a list such as `$XDG_DATA_DIRS` names: the pieces
/// between the colons, each where it is absolute.
pub open spec fn dirs_of(value: Seq<char>) -> Seq<Option<Seq<char>>> {
    split_on(value, ':').map_values(|p: Seq<char>| if is_absolute(p) { Some(p) } else { None })
}

/// The directories of the list `value` of an environment variable (the
/// absolute ones among the pieces between colons), or `defaults` where the
/// variable is not set.
pub fn xdg_dirs(value: Option<String>, defaults: Vec<Option<String>>) -> (res: Vec<Option<String>>)
    ensures
        match value {
            None => res == defaults,
            Some(v) => opt_views(res@) == dirs_of(v@),
        },
{
    match value {
        None => defaults,
        Some(s) => {
            let v = chars_of(s.as_str());
            let pieces = split_on_char(&v, ':');
            let mut res: Vec<Option<String>> = Vec::new();
            let mut i: usize = 0;
            while i < pieces.len()
                invariant
                    i <= pieces@.len(),
                    views(pieces@) == split_on(s@, ':'),
                    opt_views(res@) =~= dirs_of(s@).take(i as int),
                decreases pieces.len() - i,
            {
                let d = absolute_path(pieces[i].as_str());
                assert(pieces@[i as int]@ == split_on(s@, ':')[i as int]);
                assert(dirs_of(s@)[i as int] == opt_view(d));
                let ghost before = res@;
                res.push(d);
                assert(opt_views(res@) =~= opt_views(before).push(opt_view(d)));
                assert(opt_views(res@) =~= dirs_of(s@).take(i + 1));
                i = i + 1;
            }
            assert(dirs_of(s@).take(i as int) =~= dirs_of(s@));
            res
        },
    }
}

/// The directories of `$XDG_CONFIG_DIRS` (whose value is `env_value`), or
/// `/etc/xdg` where it is not set.
pub fn xdg_config_dirs(env_value: Option<String>) -> (res: Vec<Option<String>>)
    ensures
        match env_value {
            None => opt_views(res@) == seq![Some("/etc/xdg"@)],
            Some(v) => opt_views(res@) == dirs_of(v@),
        },
{
    let mut defaults: Vec<Option<String>> = Vec::new();
    defaults.push(Some(String::from_str("/etc/xdg")));
    assert(opt_views(defaults@) =~= seq![Some("/etc/xdg"@)]);
    xdg_dirs(env_value, defaults)
}

/// The directories of `$XDG_DATA_DIRS` (whose value is `env_value`), or
/// `/usr/local/share` and `/usr/share` where it is not set.
pub fn xdg_data_dirs(env_value: Option<String>) -> (res: Vec<Option<String>>)
    ensures
        match env_value {
            None => opt_views(res@) == seq![Some("/usr/local/share"@), Some("/usr/share"@)],
            Some(v) => opt_views(res@) == dirs_of(v@),
        },
{
    let mut defaults: Vec<Option<String>> = Vec::new();
    defaults.push(Some(String::from_str("/usr/local/share")));
    defaults.push(Some(String::from_str("/usr/share")));
    assert(opt_views(defaults@) =~= seq![Some("/usr/local/share"@), Some("/usr/share"@)]);
    xdg_dirs(env_value, defaults)
}

/// The path `ext` under `base`, as `PathBuf::push` extends a path on Unix:
/// an absolute `ext` replaces `base`; otherwise a `/` goes between them
/// where `base` is not empty and does not end in one.
pub open spec fn joined(base: Seq<char>, ext: Seq<char>) -> Seq<char> {
    if is_absolute(ext) {
        ext
    } else if base.len() == 0 || base.last() == '/' {
        base + ext
    } else {
        base + seq!['/'] + ext
    }
}

/// The path `ext` under `base`.
pub fn join_path(base: &str, ext: &str) -> (res: String)
    ensures
        res@ == joined(base@, ext@),
{
    let e = chars_of(ext);
    if e.len() > 0 && e[0] == '/' {
        return ext.to_owned();
    }
    let b = chars_of(base);
    let mut res = base.to_owned();
    if b.len() > 0 && b[b.len() - 1] != '/' {
        push_char(&mut res, '/');
    }
    res.append(ext);
    res
}

/// Where the file `ext` is looked for under `base`: nowhere where there is
/// no such directory.
pub open spec fn candidate(base: Option<Seq<char>>, ext: Seq<char>) -> Seq<Seq<char>> {
    match base {
        Some(b) => seq![joined(b, ext)],
        None => Seq::empty(),
    }
}

/// Where the file `ext` is looked for under each of `dirs`, in order.
pub open spec fn candidates(dirs: Seq<Option<Seq<char>>>, ext: Seq<char>) -> Seq<Seq<char>>
    decreases dirs.len(),
{
    if dirs.len() == 0 {
        Seq::empty()
    } else {
        candidates(dirs.drop_last(), ext) + candidate(dirs.last(), ext)
    }
}

/// The name of the configuration file under a configuration or data
/// directory.
pub open spec fn config_file_name() -> Seq<char> {
    "honeybee/config.toml"@
}

/// The places where the configuration file is looked for, in order:
/// `honeybee/config.toml` under the user's configuration directory, then
/// under the user's data directory, then `.honeybee.toml` in the home
/// directory, then `honeybee/config.toml` under each of the
/// `$XDG_DATA_DIRS`, then under each of the `$XDG_CONFIG_DIRS`.
pub open spec fn search_order(
    config_dir: Option<Seq<char>>,
    data_dir: Option<Seq<char>>,
    home_dir: Option<Seq<char>>,
    data_dirs: Seq<Option<Seq<char>>>,
    config_dirs: Seq<Option<Seq<char>>>,
) -> Seq<Seq<char>> {
    candidate(config_dir, config_file_name()) + candidate(data_dir, config_file_name()) + candidate(
        home_dir,
        ".honeybee.toml"@,
    ) + candidates(data_dirs, config_file_name()) + candidates(config_dirs, config_file_name())
}

fn push_candidate(out: &mut Vec<String>, base: &Option<String>, ext: &str)
    ensures
        views(final(out)@) == views(old(out)@) + candidate(opt_view(*base), ext@),
{
    let ghost before = out@;
    if let Some(b) = base {
        out.push(join_path(b.as_str(), ext));
        assert(views(out@) =~= views(before) + candidate(opt_view(*base), ext@));
    } else {
        assert(views(out@) =~= views(before) + candidate(opt_view(*base), ext@));
    }
}

fn push_candidates(out: &mut Vec<String>, dirs: &Vec<Option<String>>, ext: &str)
    ensures
        views(final(out)@) == views(old(out)@) + candidates(opt_views(dirs@), ext@),
{
    let ghost start = views(out@);
    let mut i: usize = 0;
    assert(opt_views(dirs@).take(0) =~= Seq::<Option<Seq<char>>>::empty());
    assert(start + Seq::<Seq<char>>::empty() =~= start);
    while i < dirs.len()
        invariant
            i <= dirs@.len(),
            views(out@) == start + candidates(opt_views(dirs@).take(i as int), ext@),
        decreases dirs.len() - i,
    {
        let ghost ds = opt_views(dirs@);
        assert(ds.take(i + 1).drop_last() =~= ds.take(i as int));
        assert(ds.take(i + 1).last() == opt_view(dirs@[i as int]));
        let ghost mid = views(out@);
        push_candidate(out, &dirs[i], ext);
        assert(start + candidates(ds.take(i as int), ext@) + candidate(opt_view(dirs@[i as int]), ext@)
            =~= start + candidates(ds.take(i + 1), ext@));
        i = i + 1;
    }
    assert(opt_views(dirs@).take(i as int) =~= opt_views(dirs@));
}

/// The places where the configuration file is looked for, in the order in
/// which they are tried (see `search_order`): the user's configuration,
/// data and home directories, then the data and configuration directories
/// of the XDG lists.
pub fn config_candidates(
    config_dir: Option<String>,
    data_dir: Option<String>,
    home_dir: Option<String>,
    data_dirs: Vec<Option<String>>,
    config_dirs: Vec<Option<String>>,
) -> (res: Vec<String>)
    ensures
        views(res@) == search_order(
            opt_view(config_dir),
            opt_view(data_dir),
            opt_view(home_dir),
            opt_views(data_dirs@),
            opt_views(config_dirs@),
        ),
{
    proof { reveal_strlit("honeybee/config.toml"); }
    let mut out: Vec<String> = Vec::new();
    assert(views(out@) =~= Seq::<Seq<char>>::empty());
    push_candidate(&mut out, &config_dir, "honeybee/config.toml");
    push_candidate(&mut out, &data_dir, "honeybee/config.toml");
    push_candidate(&mut out, &home_dir, ".honeybee.toml");
    push_candidates(&mut out, &data_dirs, "honeybee/config.toml");
    push_candidates(&mut out, &config_dirs, "honeybee/config.toml");
    assert(views(out@) =~= search_order(
        opt_view(config_dir),
        opt_view(data_dir),
        opt_view(home_dir),
        opt_views(data_dirs@),
        opt_views(config_dirs@),
    ));
    out
}

proof fn lemma_candidates_len(dirs: Seq<Option<Seq<char>>>, ext: Seq<char>)
    ensures
        candidates(dirs, ext).len() <= dirs.len(),
    decreases dirs.len(),
{
    if dirs.len() > 0 {
        lemma_candidates_len(dirs.drop_last(), ext);
    }
}

proof fn lemma_candidates_all(dirs: Seq<Option<Seq<char>>>, ext: Seq<char>)
    requires
        forall|i: int| 0 <= i < dirs.len() ==> (#[trigger] dirs[i]) is Some,
    ensures
        candidates(dirs, ext).len() == dirs.len(),
        forall|i: int| 0 <= i < dirs.len() ==> #[trigger] candidates(dirs, ext)[i] == joined(dirs[i]->0, ext),
    decreases dirs.len(),
{
    if dirs.len() > 0 {
        let init = dirs.drop_last();
        assert forall|i: int| 0 <= i < init.len() implies (#[trigger] init[i]) is Some by {
            assert(init[i] == dirs[i]);
        }
        lemma_candidates_all(init, ext);
        assert(dirs[dirs.len() - 1] is Some);
        assert forall|i: int| 0 <= i < dirs.len() implies #[trigger] candidates(dirs, ext)[i] == joined(
            dirs[i]->0,
            ext,
        ) by {
            if i < init.len() {
                assert(init[i] == dirs[i]);
            }
        }
    }
}

/// The configuration file is looked for first under the user's
/// configuration directory, then under the user's data directory, then in
/// the home directory, then under the XDG data directories, then under the
/// XDG configuration directories; a directory that is not known is
/// skipped, and no place is tried that none of these gives.
pub proof fn lemma_search_order(
    config_dir: Option<Seq<char>>,
    data_dir: Option<Seq<char>>,
    home_dir: Option<Seq<char>>,
    data_dirs: Seq<Option<Seq<char>>>,
    config_dirs: Seq<Option<Seq<char>>>,
)
    ensures
        ({
            let o = search_order(config_dir, data_dir, home_dir, data_dirs, config_dirs);
            let f = "honeybee/config.toml"@;
            &&& config_dir is Some ==> o[0] == joined(config_dir->0, f)
            &&& config_dir is Some && data_dir is Some ==> o[1] == joined(data_dir->0, f)
            &&& config_dir is None && data_dir is Some ==> o[0] == joined(data_dir->0, f)
            &&& config_dir is Some && data_dir is Some && home_dir is Some ==> o[2] == joined(
                home_dir->0,
                ".honeybee.toml"@,
            )
            &&& config_dir is Some && data_dir is Some && home_dir is Some && (forall|i: int|
                0 <= i < data_dirs.len() ==> (#[trigger] data_dirs[i]) is Some) ==> forall|i: int|
                0 <= i < data_dirs.len() ==> #[trigger] o[3 + i] == joined(data_dirs[i]->0, f)
            &&& config_dir is None && data_dir is None && home_dir is None && data_dirs.len() == 0 && (forall|
                i: int,
            |
                0 <= i < config_dirs.len() ==> (#[trigger] config_dirs[i]) is Some) ==> o.len()
                == config_dirs.len() && forall|i: int|
                0 <= i < config_dirs.len() ==> #[trigger] o[i] == joined(config_dirs[i]->0, f)
            &&& o.len() <= 3 + data_dirs.len() + config_dirs.len()
        }),
{
    let f = "honeybee/config.toml"@;
    let o = search_order(config_dir, data_dir, home_dir, data_dirs, config_dirs);
    lemma_candidates_len(data_dirs, f);
    lemma_candidates_len(config_dirs, f);
    if forall|i: int| 0 <= i < data_dirs.len() ==> (#[trigger] data_dirs[i]) is Some {
        lemma_candidates_all(data_dirs, f);
    }
    if forall|i: int| 0 <= i < config_dirs.len() ==> (#[trigger] config_dirs[i]) is Some {
        lemma_candidates_all(config_dirs, f);
    }
    if data_dirs.len() == 0 {
        assert(candidates(data_dirs, f) =~= Seq::<Seq<char>>::empty());
    }
}

} // verus!
