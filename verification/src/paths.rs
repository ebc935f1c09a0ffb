//! Where cftun keeps its files. A path is text with `/` between its components, and
//! is absolute where it begins with one, as on Unix. What is said of paths is said
//! of their texts: two texts can name one file, as `a.yaml` and `./a.yaml` do.
use crate::text::{cat2, cat3, chars_of};
use vstd::prelude::*;

verus! {

/// Whether `path` starts at the root.
pub open spec fn is_absolute(path: Seq<char>) -> bool {
    path.len() > 0 && path[0] == '/'
}

/// `dir`, ready to have a component written after it.
pub open spec fn with_separator(dir: Seq<char>) -> Seq<char> {
    if dir.len() == 0 || dir.last() == '/' {
        dir
    } else {
        dir + "/"@
    }
}

/// `part` as seen from `dir`. An absolute `part` does not depend on `dir`.
pub open spec fn joined(dir: Seq<char>, part: Seq<char>) -> Seq<char> {
    if is_absolute(part) {
        part
    } else {
        with_separator(dir) + part
    }
}

/// The directory of cftun's files, for the home directory `home`.
pub open spec fn cftun_dir_of(home: Seq<char>) -> Seq<char> {
    joined(joined(home, ".cloudflared"@), "cftun"@)
}

/// The file of the metadata.
pub open spec fn metadata_path_of(home: Seq<char>) -> Seq<char> {
    joined(cftun_dir_of(home), "tunnels.yaml"@)
}

/// The file in which cloudflared keeps the credentials of tunnel `uuid`.
pub open spec fn credentials_file_of(home: Seq<char>, uuid: Seq<char>) -> Seq<char> {
    joined(joined(home, ".cloudflared"@), uuid + ".json"@)
}

/// The file of the configuration of the tunnel `name`.
pub open spec fn config_path_of(home: Seq<char>, name: Seq<char>) -> Seq<char> {
    joined(cftun_dir_of(home), name + ".yaml"@)
}

/// Whether the tunnel `name` cannot have a configuration of its own, because the
/// file would be that of the metadata.
pub open spec fn is_reserved(home: Seq<char>, name: Seq<char>) -> bool {
    config_path_of(home, name) == metadata_path_of(home)
}

/// `part` as seen from `dir`.
pub fn join_path(dir: &str, part: &str) -> (r: String)
    ensures
        r@ == joined(dir@, part@),
{
    let p = chars_of(part);
    if p.len() > 0 && p[0] == '/' {
        return part.to_string();
    }
    let d = chars_of(dir);
    if d.len() == 0 || d[d.len() - 1] == '/' {
        cat2(dir, part)
    } else {
        cat3(dir, "/", part)
    }
}

/// The directory of cftun's files.
pub fn cftun_dir(home: &str) -> (r: String)
    ensures
        r@ == cftun_dir_of(home@),
{
    join_path(join_path(home, ".cloudflared").as_str(), "cftun")
}

/// The file of the metadata.
pub fn metadata_path(home: &str) -> (r: String)
    ensures
        r@ == metadata_path_of(home@),
{
    join_path(cftun_dir(home).as_str(), "tunnels.yaml")
}

/// The file in which cloudflared keeps the credentials of tunnel `uuid`.
pub fn credentials_file(home: &str, uuid: &str) -> (r: String)
    ensures
        r@ == credentials_file_of(home@, uuid@),
{
    join_path(join_path(home, ".cloudflared").as_str(), cat2(uuid, ".json").as_str())
}

/// The file of the configuration of the tunnel `name`.
pub fn config_path(home: &str, name: &str) -> (r: String)
    ensures
        r@ == config_path_of(home@, name@),
{
    join_path(cftun_dir(home).as_str(), cat2(name, ".yaml").as_str())
}

/// Whether the tunnel `name` cannot have a configuration of its own.
pub fn name_reserved(home: &str, name: &str) -> (r: bool)
    ensures
        r == is_reserved(home@, name@),
{
    config_path(home, name) == metadata_path(home)
}

/// The metadata stands at `.cloudflared/cftun/tunnels.yaml` under the home
/// directory, and a tunnel's configuration at `.cloudflared/cftun/<name>.yaml`,
/// unless the name is an absolute path.
pub proof fn law_files_under_home(home: Seq<char>, name: Seq<char>)
    requires
        !is_absolute(name),
    ensures
        metadata_path_of(home) == with_separator(home) + ".cloudflared/cftun/tunnels.yaml"@,
        config_path_of(home, name) == with_separator(home) + ".cloudflared/cftun/"@ + name
            + ".yaml"@,
{
    reveal_strlit("/");
    reveal_strlit(".cloudflared");
    reveal_strlit("cftun");
    reveal_strlit("tunnels.yaml");
    reveal_strlit(".yaml");
    reveal_strlit(".cloudflared/cftun/tunnels.yaml");
    reveal_strlit(".cloudflared/cftun/");
    let base = with_separator(home) + ".cloudflared"@;
    assert(joined(home, ".cloudflared"@) == base);
    assert(base.last() == 'd');
    let dir = base + "/"@ + "cftun"@;
    assert(cftun_dir_of(home) == dir);
    assert(dir.last() == 'n');
    assert(dir + "/"@ =~= with_separator(home) + ".cloudflared/cftun/"@);
    assert(dir + "/"@ + "tunnels.yaml"@ =~= with_separator(home)
        + ".cloudflared/cftun/tunnels.yaml"@);
    assert(!is_absolute(name + ".yaml"@));
    assert(config_path_of(home, name) =~= with_separator(home) + ".cloudflared/cftun/"@ + name
        + ".yaml"@);
}

/// A configuration's path is the name seen from cftun's directory, with the
/// extension after it.
proof fn lemma_config_path(home: Seq<char>, name: Seq<char>)
    ensures
        config_path_of(home, name) == joined(cftun_dir_of(home), name) + ".yaml"@,
{
    reveal_strlit(".yaml");
    assert(config_path_of(home, name) =~= joined(cftun_dir_of(home), name) + ".yaml"@);
}

/// Two texts that are equal with the same ending are equal without it.
proof fn lemma_same_ending(a: Seq<char>, b: Seq<char>, ending: Seq<char>)
    requires
        a + ending == b + ending,
    ensures
        a == b,
{
    assert((a + ending).len() == (b + ending).len());
    assert(a =~= (a + ending).take(a.len() as int));
    assert(b =~= (b + ending).take(b.len() as int));
}

/// Each tunnel has a configuration path of its own: two names share one only
/// where one of them is absolute and spells out the path that the other one
/// has in cftun's directory.
pub proof fn law_own_config(home: Seq<char>, a: Seq<char>, b: Seq<char>)
    requires
        a != b,
        !(is_absolute(a) && !is_absolute(b) && a == joined(cftun_dir_of(home), b)),
        !(is_absolute(b) && !is_absolute(a) && b == joined(cftun_dir_of(home), a)),
    ensures
        config_path_of(home, a) != config_path_of(home, b),
{
    lemma_config_path(home, a);
    lemma_config_path(home, b);
    if config_path_of(home, a) == config_path_of(home, b) {
        let dir = cftun_dir_of(home);
        lemma_same_ending(joined(dir, a), joined(dir, b), ".yaml"@);
        if !is_absolute(a) && !is_absolute(b) {
            let d = with_separator(dir);
            assert(a =~= (d + a).skip(d.len() as int));
            assert(b =~= (d + b).skip(d.len() as int));
        }
    }
}

/// The reserved names are `tunnels`, and the absolute path of the metadata without
/// its extension.
pub proof fn law_reserved_names(home: Seq<char>, name: Seq<char>)
    ensures
        is_reserved(home, name) <==> name == "tunnels"@ || (is_absolute(name) && name == joined(
            cftun_dir_of(home),
            "tunnels"@,
        )),
{
    reveal_strlit("tunnels");
    reveal_strlit(".yaml");
    reveal_strlit("tunnels.yaml");
    assert("tunnels.yaml"@ =~= "tunnels"@ + ".yaml"@);
    assert(metadata_path_of(home) == config_path_of(home, "tunnels"@));
    lemma_config_path(home, name);
    lemma_config_path(home, "tunnels"@);
    if name != "tunnels"@ && !(is_absolute(name) && name == joined(
        cftun_dir_of(home),
        "tunnels"@,
    )) {
        law_own_config(home, name, "tunnels"@);
    }
}

/// Where a part is seen from a directory: behind it and one separator, unless it is
/// absolute.
pub proof fn law_joined(dir: Seq<char>, part: Seq<char>)
    ensures
        part.len() > 0 && part[0] == '/' ==> joined(dir, part) == part,
        part.len() == 0 || part[0] != '/' ==> {
            &&& dir.len() == 0 ==> joined(dir, part) == part
            &&& dir.len() > 0 && dir.last() == '/' ==> joined(dir, part) == dir + part
            &&& dir.len() > 0 && dir.last() != '/' ==> joined(dir, part) == dir.push('/') + part
        },
{
    reveal_strlit("/");
    assert(dir + "/"@ =~= dir.push('/'));
    assert(Seq::<char>::empty() + part =~= part);
    if dir.len() == 0 {
        assert(dir + part =~= part);
    }
}

/// The files of cftun and cloudflared, spelled out: `dir` is the home directory with
/// one separator behind it, unless it is empty. The whole id stands in the name of the credentials, and the
/// whole name in that of the configuration.
pub proof fn law_files_spelled_out(home: Seq<char>, name: Seq<char>, uuid: Seq<char>)
    requires
        name.len() == 0 || name[0] != '/',
        uuid.len() == 0 || uuid[0] != '/',
    ensures
        ({
            let dir = if home.len() == 0 || home.last() == '/' { home } else { home.push('/') };
            &&& cftun_dir_of(home) == dir + ".cloudflared/cftun"@
            &&& metadata_path_of(home) == dir + ".cloudflared/cftun/tunnels.yaml"@
            &&& config_path_of(home, name) == dir + ".cloudflared/cftun/"@ + name + ".yaml"@
            &&& credentials_file_of(home, uuid) == dir + ".cloudflared/"@ + uuid + ".json"@
        }),
{
    reveal_strlit("/");
    reveal_strlit(".cloudflared");
    reveal_strlit("cftun");
    reveal_strlit(".json");
    reveal_strlit(".cloudflared/");
    reveal_strlit(".cloudflared/cftun");
    law_files_under_home(home, name);
    let dir = if home.len() == 0 || home.last() == '/' { home } else { home.push('/') };
    assert(with_separator(home) =~= dir);
    let base = dir + ".cloudflared"@;
    assert(joined(home, ".cloudflared"@) == base);
    assert(base.last() == 'd');
    assert(base + "/"@ + "cftun"@ =~= dir + ".cloudflared/cftun"@);
    assert(!is_absolute(uuid + ".json"@));
    assert(base + "/"@ + (uuid + ".json"@) =~= dir + ".cloudflared/"@ + uuid + ".json"@);
}

/// A name or an id that is an absolute path is where its file is, but for the
/// extension.
pub proof fn law_absolute_names(home: Seq<char>, name: Seq<char>)
    requires
        name.len() > 0,
        name[0] == '/',
    ensures
        config_path_of(home, name) == name + ".yaml"@,
        credentials_file_of(home, name) == name + ".json"@,
{
}

/// Two tunnels have different credentials, unless one of the ids is absolute and
/// spells out the path that the other one has.
pub proof fn law_own_credentials(home: Seq<char>, a: Seq<char>, b: Seq<char>)
    requires
        a != b,
        !(is_absolute(a) && !is_absolute(b) && a == joined(joined(home, ".cloudflared"@), b)),
        !(is_absolute(b) && !is_absolute(a) && b == joined(joined(home, ".cloudflared"@), a)),
    ensures
        credentials_file_of(home, a) != credentials_file_of(home, b),
{
    if credentials_file_of(home, a) == credentials_file_of(home, b) {
        reveal_strlit(".json");
        let d = with_separator(joined(home, ".cloudflared"@));
        assert(d + (a + ".json"@) =~= (d + a) + ".json"@);
        assert(d + (b + ".json"@) =~= (d + b) + ".json"@);
        let x = if is_absolute(a) { a } else { d + a };
        let y = if is_absolute(b) { b } else { d + b };
        lemma_same_ending(x, y, ".json"@);
        if !is_absolute(a) && !is_absolute(b) {
            assert(a =~= (d + a).skip(d.len() as int));
            assert(b =~= (d + b).skip(d.len() as int));
        }
    }
}

} // verus!
