//! The text fields of the upload form, built from a file's digest, its name
//! and its metadata in the order the index's reference client sends them.

use crate::filename::{DistFilename, DistFilenameView};
use crate::metadata::{Metadata23, Metadata23View};
use crate::text::{opt_text, texts};
use vstd::prelude::*;
use vstd::string::StringExecFns;

verus! {

/// One group of the form: a field name and the values sent under it, in order.
pub type Group = (Seq<char>, Seq<Seq<char>>);

/// One entry of the form: a field name and a value.
pub type Entry = (Seq<char>, Seq<char>);

/// The entries of a form as pairs of texts.
pub open spec fn form_view(form: Seq<(&'static str, String)>) -> Seq<Entry> {
    Seq::new(form.len(), |i: int| (form[i].0@, form[i].1@))
}

/// One entry under `name` for each of `values`, in their order.
pub open spec fn entries(name: Seq<char>, values: Seq<Seq<char>>) -> Seq<Entry> {
    Seq::new(values.len(), |i: int| (name, values[i]))
}

/// The value of a field that is sent only when it is there.
pub open spec fn optional(value: Option<Seq<char>>) -> Seq<Seq<char>> {
    match value {
        Some(value) => seq![value],
        None => seq![],
    }
}

/// The value of a field that is sent even when it is not there.
pub open spec fn or_empty(value: Option<Seq<char>>) -> Seq<char> {
    match value {
        Some(value) => value,
        None => Seq::empty(),
    }
}

/// The entries of the groups, group after group.
pub open spec fn flatten(groups: Seq<Group>) -> Seq<Entry>
    decreases groups.len(),
{
    if groups.len() == 0 {
        Seq::empty()
    } else {
        flatten(groups.drop_last()) + entries(groups.last().0, groups.last().1)
    }
}

/// The groups of the upload form, in the order in which they are sent: the
/// fixed fields, the optional fields, `requires_python`, the repeated fields.
pub open spec fn form_groups(
    digest: Seq<char>,
    filename: DistFilenameView,
    metadata: Metadata23View,
) -> Seq<Group> {
    seq![
        (":action"@, seq!["file_upload"@]),
        ("sha256_digest"@, seq![digest]),
        ("protocol_version"@, seq!["1"@]),
        ("metadata_version"@, seq![metadata.metadata_version]),
        ("name"@, seq![metadata.name]),
        ("version"@, seq![metadata.version]),
        ("filetype"@, seq![filename.filetype()]),
        ("pyversion"@, seq![filename.pyversion()]),
        ("summary"@, optional(metadata.summary)),
        ("description"@, optional(metadata.description)),
        ("description_content_type"@, optional(metadata.description_content_type)),
        ("author"@, optional(metadata.author)),
        ("author_email"@, optional(metadata.author_email)),
        ("maintainer"@, optional(metadata.maintainer)),
        ("maintainer_email"@, optional(metadata.maintainer_email)),
        ("license"@, optional(metadata.license)),
        ("keywords"@, optional(metadata.keywords)),
        ("home_page"@, optional(metadata.home_page)),
        ("download_url"@, optional(metadata.download_url)),
        ("requires_python"@, seq![or_empty(metadata.requires_python)]),
        ("classifiers"@, metadata.classifiers),
        ("platform"@, metadata.platforms),
        ("requires_dist"@, metadata.requires_dist),
        ("provides_dist"@, metadata.provides_dist),
        ("obsoletes_dist"@, metadata.obsoletes_dist),
        ("requires_external"@, metadata.requires_external),
        ("project_urls"@, metadata.project_urls),
    ]
}

/// The entries of the upload form for a file with this SHA-256 digest in
/// hexadecimal, this name and this metadata.
pub open spec fn form_fields(
    digest: Seq<char>,
    filename: DistFilenameView,
    metadata: Metadata23View,
) -> Seq<Entry> {
    flatten(form_groups(digest, filename, metadata))
}

/// The values that a form holds under `name`, in order.
pub open spec fn values_of(form: Seq<Entry>, name: Seq<char>) -> Seq<Seq<char>>
    decreases form.len(),
{
    if form.len() == 0 {
        Seq::empty()
    } else if form.last().0 == name {
        values_of(form.drop_last(), name).push(form.last().1)
    } else {
        values_of(form.drop_last(), name)
    }
}

/// No two groups bear the same name.
pub open spec fn distinct_names(groups: Seq<Group>) -> bool {
    forall|i: int, j: int|
        0 <= i < j < groups.len() ==> (#[trigger] groups[i]).0 != (#[trigger] groups[j]).0
}

proof fn lemma_flatten_push(groups: Seq<Group>, group: Group)
    ensures
        flatten(groups.push(group)) == flatten(groups) + entries(group.0, group.1),
{
    assert(groups.push(group).drop_last() =~= groups);
}

proof fn lemma_values_of_concat(front: Seq<Entry>, back: Seq<Entry>, name: Seq<char>)
    ensures
        values_of(front + back, name) == values_of(front, name) + values_of(back, name),
    decreases back.len(),
{
    if back.len() == 0 {
        assert(front + back =~= front);
        assert(values_of(front, name) + values_of(back, name) =~= values_of(front, name));
    } else {
        lemma_values_of_concat(front, back.drop_last(), name);
        assert((front + back).drop_last() =~= front + back.drop_last());
        assert((front + back).last() == back.last());
        if back.last().0 == name {
            assert(values_of(front, name) + values_of(back.drop_last(), name).push(back.last().1)
                =~= (values_of(front, name) + values_of(back.drop_last(), name)).push(
                back.last().1,
            ));
        }
    }
}

proof fn lemma_values_of_entries(group: Seq<char>, values: Seq<Seq<char>>, name: Seq<char>)
    ensures
        values_of(entries(group, values), name) == if group == name {
            values
        } else {
            Seq::empty()
        },
    decreases values.len(),
{
    if values.len() == 0 {
        assert(values =~= Seq::empty());
    } else {
        lemma_values_of_entries(group, values.drop_last(), name);
        assert(entries(group, values).drop_last() =~= entries(group, values.drop_last()));
        assert(entries(group, values).last() == (group, values.last()));
        if group == name {
            assert(values.drop_last().push(values.last()) =~= values);
        }
    }
}

proof fn lemma_values_of_other_groups(groups: Seq<Group>, name: Seq<char>)
    requires
        forall|i: int| 0 <= i < groups.len() ==> (#[trigger] groups[i]).0 != name,
    ensures
        values_of(flatten(groups), name) == Seq::<Seq<char>>::empty(),
    decreases groups.len(),
{
    if groups.len() > 0 {
        lemma_values_of_other_groups(groups.drop_last(), name);
        lemma_values_of_concat(
            flatten(groups.drop_last()),
            entries(groups.last().0, groups.last().1),
            name,
        );
        lemma_values_of_entries(groups.last().0, groups.last().1, name);
    }
}

/// Where no two groups bear the same name, the values that the form holds
/// under a group's name are that group's values, none more and none fewer,
/// in their order.
pub proof fn lemma_group_values(groups: Seq<Group>, k: int)
    requires
        distinct_names(groups),
        0 <= k < groups.len(),
    ensures
        values_of(flatten(groups), groups[k].0) == groups[k].1,
    decreases groups.len(),
{
    let name = groups[k].0;
    let front = groups.drop_last();
    lemma_values_of_concat(flatten(front), entries(groups.last().0, groups.last().1), name);
    lemma_values_of_entries(groups.last().0, groups.last().1, name);
    if k == groups.len() - 1 {
        assert forall|i: int| 0 <= i < front.len() implies (#[trigger] front[i]).0 != name by {
            assert(groups[i].0 != groups[k].0);
        }
        lemma_values_of_other_groups(front, name);
        assert(Seq::<Seq<char>>::empty() + groups[k].1 =~= groups[k].1);
    } else {
        assert(groups[k].0 != groups[groups.len() - 1].0);
        assert(distinct_names(front)) by {
            assert forall|i: int, j: int| 0 <= i < j < front.len() implies (#[trigger] front[i]).0
                != (#[trigger] front[j]).0 by {
                assert(groups[i].0 != groups[j].0);
            }
        }
        lemma_group_values(front, k);
        assert(front[k] == groups[k]);
        assert(groups[k].1 + Seq::<Seq<char>>::empty() =~= groups[k].1);
    }
}

/// The place of a field name among the groups of the form, told by the
/// name's length and its first two characters.
spec fn group_index(name: Seq<char>) -> int {
    if name.len() == 7 && name[0] == ':' && name[1] == 'a' {
        0
    } else if name.len() == 13 && name[0] == 's' && name[1] == 'h' {
        1
    } else if name.len() == 16 && name[0] == 'p' && name[1] == 'r' {
        2
    } else if name.len() == 16 && name[0] == 'm' && name[1] == 'e' {
        3
    } else if name.len() == 4 && name[0] == 'n' && name[1] == 'a' {
        4
    } else if name.len() == 7 && name[0] == 'v' && name[1] == 'e' {
        5
    } else if name.len() == 8 && name[0] == 'f' && name[1] == 'i' {
        6
    } else if name.len() == 9 && name[0] == 'p' && name[1] == 'y' {
        7
    } else if name.len() == 7 && name[0] == 's' && name[1] == 'u' {
        8
    } else if name.len() == 11 && name[0] == 'd' && name[1] == 'e' {
        9
    } else if name.len() == 24 && name[0] == 'd' && name[1] == 'e' {
        10
    } else if name.len() == 6 && name[0] == 'a' && name[1] == 'u' {
        11
    } else if name.len() == 12 && name[0] == 'a' && name[1] == 'u' {
        12
    } else if name.len() == 10 && name[0] == 'm' && name[1] == 'a' {
        13
    } else if name.len() == 16 && name[0] == 'm' && name[1] == 'a' {
        14
    } else if name.len() == 7 && name[0] == 'l' && name[1] == 'i' {
        15
    } else if name.len() == 8 && name[0] == 'k' && name[1] == 'e' {
        16
    } else if name.len() == 9 && name[0] == 'h' && name[1] == 'o' {
        17
    } else if name.len() == 12 && name[0] == 'd' && name[1] == 'o' {
        18
    } else if name.len() == 15 && name[0] == 'r' && name[1] == 'e' {
        19
    } else if name.len() == 11 && name[0] == 'c' && name[1] == 'l' {
        20
    } else if name.len() == 8 && name[0] == 'p' && name[1] == 'l' {
        21
    } else if name.len() == 13 && name[0] == 'r' && name[1] == 'e' {
        22
    } else if name.len() == 13 && name[0] == 'p' && name[1] == 'r' {
        23
    } else if name.len() == 14 && name[0] == 'o' && name[1] == 'b' {
        24
    } else if name.len() == 17 && name[0] == 'r' && name[1] == 'e' {
        25
    } else if name.len() == 12 && name[0] == 'p' && name[1] == 'r' {
        26
    } else {
        27
    }
}

/// The names of the form's groups differ from one another.
pub proof fn lemma_form_names_distinct(
    digest: Seq<char>,
    filename: DistFilenameView,
    metadata: Metadata23View,
)
    ensures
        distinct_names(form_groups(digest, filename, metadata)),
{
    reveal_strlit(":action");
    reveal_strlit("sha256_digest");
    reveal_strlit("protocol_version");
    reveal_strlit("metadata_version");
    reveal_strlit("name");
    reveal_strlit("version");
    reveal_strlit("filetype");
    reveal_strlit("pyversion");
    reveal_strlit("summary");
    reveal_strlit("description");
    reveal_strlit("description_content_type");
    reveal_strlit("author");
    reveal_strlit("author_email");
    reveal_strlit("maintainer");
    reveal_strlit("maintainer_email");
    reveal_strlit("license");
    reveal_strlit("keywords");
    reveal_strlit("home_page");
    reveal_strlit("download_url");
    reveal_strlit("requires_python");
    reveal_strlit("classifiers");
    reveal_strlit("platform");
    reveal_strlit("requires_dist");
    reveal_strlit("provides_dist");
    reveal_strlit("obsoletes_dist");
    reveal_strlit("requires_external");
    reveal_strlit("project_urls");
    let groups = form_groups(digest, filename, metadata);
    assert(groups.len() == 27);
    assert forall|i: int| 0 <= i < groups.len() implies group_index((#[trigger] groups[i]).0)
        == i by {
        if i == 0 {
            assert(groups[0].0 == ":action"@);
        } else if i == 1 {
            assert(groups[1].0 == "sha256_digest"@);
        } else if i == 2 {
            assert(groups[2].0 == "protocol_version"@);
        } else if i == 3 {
            assert(groups[3].0 == "metadata_version"@);
        } else if i == 4 {
            assert(groups[4].0 == "name"@);
        } else if i == 5 {
            assert(groups[5].0 == "version"@);
        } else if i == 6 {
            assert(groups[6].0 == "filetype"@);
        } else if i == 7 {
            assert(groups[7].0 == "pyversion"@);
        } else if i == 8 {
            assert(groups[8].0 == "summary"@);
        } else if i == 9 {
            assert(groups[9].0 == "description"@);
        } else if i == 10 {
            assert(groups[10].0 == "description_content_type"@);
        } else if i == 11 {
            assert(groups[11].0 == "author"@);
        } else if i == 12 {
            assert(groups[12].0 == "author_email"@);
        } else if i == 13 {
            assert(groups[13].0 == "maintainer"@);
        } else if i == 14 {
            assert(groups[14].0 == "maintainer_email"@);
        } else if i == 15 {
            assert(groups[15].0 == "license"@);
        } else if i == 16 {
            assert(groups[16].0 == "keywords"@);
        } else if i == 17 {
            assert(groups[17].0 == "home_page"@);
        } else if i == 18 {
            assert(groups[18].0 == "download_url"@);
        } else if i == 19 {
            assert(groups[19].0 == "requires_python"@);
        } else if i == 20 {
            assert(groups[20].0 == "classifiers"@);
        } else if i == 21 {
            assert(groups[21].0 == "platform"@);
        } else if i == 22 {
            assert(groups[22].0 == "requires_dist"@);
        } else if i == 23 {
            assert(groups[23].0 == "provides_dist"@);
        } else if i == 24 {
            assert(groups[24].0 == "obsoletes_dist"@);
        } else if i == 25 {
            assert(groups[25].0 == "requires_external"@);
        } else if i == 26 {
            assert(groups[26].0 == "project_urls"@);
        }
    }
}

/// Every form holds each of the eight fixed fields once: the action, the
/// digest as it was handed in, the protocol and metadata versions, the
/// project's name and version, the file type and the interpreter tag.
pub proof fn lemma_fixed_fields(digest: Seq<char>, filename: DistFilenameView, metadata: Metadata23View)
    ensures
        ({
            let form = form_fields(digest, filename, metadata);
            &&& values_of(form, ":action"@) == seq!["file_upload"@]
            &&& values_of(form, "sha256_digest"@) == seq![digest]
            &&& values_of(form, "protocol_version"@) == seq!["1"@]
            &&& values_of(form, "metadata_version"@) == seq![metadata.metadata_version]
            &&& values_of(form, "name"@) == seq![metadata.name]
            &&& values_of(form, "version"@) == seq![metadata.version]
            &&& values_of(form, "filetype"@) == seq![filename.filetype()]
            &&& values_of(form, "pyversion"@) == seq![filename.pyversion()]
        }),
{
    let groups = form_groups(digest, filename, metadata);
    lemma_form_names_distinct(digest, filename, metadata);
    lemma_group_values(groups, 0);
    lemma_group_values(groups, 1);
    lemma_group_values(groups, 2);
    lemma_group_values(groups, 3);
    lemma_group_values(groups, 4);
    lemma_group_values(groups, 5);
    lemma_group_values(groups, 6);
    lemma_group_values(groups, 7);
}

/// An optional field that the metadata lacks has no entry in the form, and
/// one that it has stands there once with its value. `requires_python` stands
/// there once in either case, empty where the metadata has none.
pub proof fn lemma_optional_fields(digest: Seq<char>, filename: DistFilenameView, metadata: Metadata23View)
    ensures
        ({
            let form = form_fields(digest, filename, metadata);
            &&& values_of(form, "summary"@) == optional(metadata.summary)
            &&& values_of(form, "description"@) == optional(metadata.description)
            &&& values_of(form, "description_content_type"@) == optional(metadata.description_content_type)
            &&& values_of(form, "author"@) == optional(metadata.author)
            &&& values_of(form, "author_email"@) == optional(metadata.author_email)
            &&& values_of(form, "maintainer"@) == optional(metadata.maintainer)
            &&& values_of(form, "maintainer_email"@) == optional(metadata.maintainer_email)
            &&& values_of(form, "license"@) == optional(metadata.license)
            &&& values_of(form, "keywords"@) == optional(metadata.keywords)
            &&& values_of(form, "home_page"@) == optional(metadata.home_page)
            &&& values_of(form, "download_url"@) == optional(metadata.download_url)
            &&& values_of(form, "requires_python"@) == seq![or_empty(metadata.requires_python)]
        }),
{
    let groups = form_groups(digest, filename, metadata);
    lemma_form_names_distinct(digest, filename, metadata);
    lemma_group_values(groups, 8);
    lemma_group_values(groups, 9);
    lemma_group_values(groups, 10);
    lemma_group_values(groups, 11);
    lemma_group_values(groups, 12);
    lemma_group_values(groups, 13);
    lemma_group_values(groups, 14);
    lemma_group_values(groups, 15);
    lemma_group_values(groups, 16);
    lemma_group_values(groups, 17);
    lemma_group_values(groups, 18);
    lemma_group_values(groups, 19);
}

/// Under the name of a repeated field the form holds the metadata's values
/// of that field: as many as the metadata has, in the order it has them.
pub proof fn lemma_repeated_fields(digest: Seq<char>, filename: DistFilenameView, metadata: Metadata23View)
    ensures
        ({
            let form = form_fields(digest, filename, metadata);
            &&& values_of(form, "classifiers"@) == metadata.classifiers
            &&& values_of(form, "platform"@) == metadata.platforms
            &&& values_of(form, "requires_dist"@) == metadata.requires_dist
            &&& values_of(form, "provides_dist"@) == metadata.provides_dist
            &&& values_of(form, "obsoletes_dist"@) == metadata.obsoletes_dist
            &&& values_of(form, "requires_external"@) == metadata.requires_external
            &&& values_of(form, "project_urls"@) == metadata.project_urls
        }),
{
    let groups = form_groups(digest, filename, metadata);
    lemma_form_names_distinct(digest, filename, metadata);
    lemma_group_values(groups, 20);
    lemma_group_values(groups, 21);
    lemma_group_values(groups, 22);
    lemma_group_values(groups, 23);
    lemma_group_values(groups, 24);
    lemma_group_values(groups, 25);
    lemma_group_values(groups, 26);
}

/// Appends the group `(name, values)` to a form that holds the groups `done`.
fn add_vec(
    form: &mut Vec<(&'static str, String)>,
    name: &'static str,
    values: Vec<String>,
    Ghost(done): Ghost<Seq<Group>>,
) -> (now: Ghost<Seq<Group>>)
    requires
        form_view(old(form)@) == flatten(done),
    ensures
        now@ == done.push((name@, texts(values@))),
        form_view(final(form)@) == flatten(now@),
{
    let ghost before = form_view(form@);
    let mut i: usize = 0;
    while i < values.len()
        invariant
            i <= values.len(),
            form_view(form@) == before + entries(name@, texts(values@).take(i as int)),
        decreases values.len() - i,
    {
        let ghost shorter = form@;
        let value = values[i].clone();
        form.push((name, value));
        proof {
            let sent = texts(values@).take(i as int);
            let sent_now = texts(values@).take(i + 1);
            assert(sent_now =~= sent.push(value@));
            assert(entries(name@, sent_now) =~= entries(name@, sent).push((name@, value@)));
            assert(form_view(form@) =~= form_view(shorter).push((name@, value@)));
        }
        i = i + 1;
    }
    proof {
        assert(texts(values@).take(values@.len() as int) =~= texts(values@));
        lemma_flatten_push(done, (name@, texts(values@)));
    }
    Ghost(done.push((name@, texts(values@))))
}

/// Appends the group of an optional field to a form that holds the groups `done`.
fn add_option(
    form: &mut Vec<(&'static str, String)>,
    name: &'static str,
    value: Option<String>,
    Ghost(done): Ghost<Seq<Group>>,
) -> (now: Ghost<Seq<Group>>)
    requires
        form_view(old(form)@) == flatten(done),
    ensures
        now@ == done.push((name@, optional(opt_text(value)))),
        form_view(final(form)@) == flatten(now@),
{
    let ghost before = form_view(form@);
    if let Some(some) = value {
        form.push((name, some));
        assert(form_view(form@) =~= before + entries(name@, optional(opt_text(value))));
    } else {
        assert(form_view(form@) =~= before + entries(name@, optional(opt_text(value))));
    }
    proof {
        lemma_flatten_push(done, (name@, optional(opt_text(value))));
    }
    Ghost(done.push((name@, optional(opt_text(value)))))
}

/// Appends the group of a field with one value to a form that holds the groups `done`.
fn add_one(
    form: &mut Vec<(&'static str, String)>,
    name: &'static str,
    value: String,
    Ghost(done): Ghost<Seq<Group>>,
) -> (now: Ghost<Seq<Group>>)
    requires
        form_view(old(form)@) == flatten(done),
    ensures
        now@ == done.push((name@, seq![value@])),
        form_view(final(form)@) == flatten(now@),
{
    let ghost before = form_view(form@);
    form.push((name, value));
    proof {
        assert(form_view(form@) =~= before + entries(name@, seq![value@]));
        lemma_flatten_push(done, (name@, seq![value@]));
    }
    Ghost(done.push((name@, seq![value@])))
}

/// Collects the text fields of the upload form from the file's SHA-256 digest
/// in hexadecimal, its name and its metadata. The content of the file itself
/// is no part of them.
pub fn form_metadata(hash_hex: String, filename: &DistFilename, metadata: Metadata23) -> (form: Vec<
    (&'static str, String),
>)
    ensures
        form_view(form@) == form_fields(hash_hex@, filename@, metadata@),
{
    let ghost wanted = form_groups(hash_hex@, filename@, metadata@);
    let Metadata23 {
        metadata_version,
        name,
        version,
        platforms,
        summary,
        description,
        description_content_type,
        keywords,
        home_page,
        download_url,
        author,
        author_email,
        maintainer,
        maintainer_email,
        license,
        classifiers,
        requires_dist,
        provides_dist,
        obsoletes_dist,
        requires_python,
        requires_external,
        project_urls,
    } = metadata;
    let mut form: Vec<(&'static str, String)> = Vec::new();
    let done: Ghost<Seq<Group>> = Ghost(Seq::empty());
    assert(form_view(form@) =~= flatten(done@));

    let done = add_one(&mut form, ":action", String::from_str("file_upload"), done);
    let done = add_one(&mut form, "sha256_digest", hash_hex, done);
    let done = add_one(&mut form, "protocol_version", String::from_str("1"), done);
    let done = add_one(&mut form, "metadata_version", metadata_version, done);
    let done = add_one(&mut form, "name", name, done);
    let done = add_one(&mut form, "version", version, done);
    let done = add_one(&mut form, "filetype", String::from_str(filename.filetype()), done);
    let done = add_one(&mut form, "pyversion", filename.pyversion(), done);

    let done = add_option(&mut form, "summary", summary, done);
    let done = add_option(&mut form, "description", description, done);
    let done = add_option(&mut form, "description_content_type", description_content_type, done);
    let done = add_option(&mut form, "author", author, done);
    let done = add_option(&mut form, "author_email", author_email, done);
    let done = add_option(&mut form, "maintainer", maintainer, done);
    let done = add_option(&mut form, "maintainer_email", maintainer_email, done);
    let done = add_option(&mut form, "license", license, done);
    let done = add_option(&mut form, "keywords", keywords, done);
    let done = add_option(&mut form, "home_page", home_page, done);
    let done = add_option(&mut form, "download_url", download_url, done);

    // Some indexes refuse an upload without this field, so it is sent even when empty.
    let requires_python = match requires_python {
        Some(requires_python) => requires_python,
        None => String::new(),
    };
    let done = add_one(&mut form, "requires_python", requires_python, done);

    let done = add_vec(&mut form, "classifiers", classifiers, done);
    let done = add_vec(&mut form, "platform", platforms, done);
    let done = add_vec(&mut form, "requires_dist", requires_dist, done);
    let done = add_vec(&mut form, "provides_dist", provides_dist, done);
    let done = add_vec(&mut form, "obsoletes_dist", obsoletes_dist, done);
    let done = add_vec(&mut form, "requires_external", requires_external, done);
    let done = add_vec(&mut form, "project_urls", project_urls, done);

    assert(done@ =~= wanted);
    form
}

} // verus!
