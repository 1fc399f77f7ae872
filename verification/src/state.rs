use vstd::prelude::*;

use crate::application::Application;
use crate::error::InstallerError;
use crate::platform::PlatformOS;
use crate::seed::{seed_payload_view, ImageSeed};
use crate::strutil::{
    first_index_of, has_prefix, is_digit, lemma_dec_of_digits, lemma_first_index_of_concat,
    str_eq, str_find_char, str_starts_with, substring_copy,
};
use crate::version::{
    lemma_version_round_trip_dotted, version_text_of, AppVersion, ImageVersion, Version,
};

verus! {

/// Text that fits on one line of the state file.
pub open spec fn no_newline(s: Seq<char>) -> bool {
    forall|i: int| 0 <= i < s.len() ==> s[i] != '\n'
}

/// One line of the state file: a key, a separating colon, a value.
pub open spec fn line_of(key: Seq<char>, value: Seq<char>) -> Seq<char> {
    key + ": "@ + value + seq!['\n']
}

pub open spec fn bool_text(b: bool) -> Seq<char> {
    if b {
        "true"@
    } else {
        "false"@
    }
}

/// How the overriding binary is written: its path, or a tilde for none.
pub open spec fn binary_text(o: Option<Seq<char>>) -> Seq<char> {
    match o {
        Some(p) => p,
        None => "~"@,
    }
}

/// How the seed is written: its kind, a space, its path or address.
pub open spec fn seed_text(s: ImageSeed) -> Seq<char> {
    match s {
        ImageSeed::Url(u) => "url "@ + u@,
        ImageSeed::Zip(p) => "zip "@ + p@,
        ImageSeed::Image(p) => "image "@ + p@,
    }
}

/// The whole state file of a record: one line per field, in a fixed order.
pub open spec fn state_text_view(app: Application) -> Seq<char> {
    line_of("verbose"@, bool_text(app.verbose_spec())) + line_of(
        "workspace"@,
        app.workspace_view(),
    ) + line_of("app_version"@, version_text_of(app.app_version_spec())) + line_of(
        "app_cli_binary"@,
        binary_text(app.app_cli_binary_view()),
    ) + line_of("image_version"@, version_text_of(app.image_version_spec())) + line_of(
        "image_name"@,
        app.image_name_view(),
    ) + line_of("image_extension"@, app.image_extension_view()) + line_of(
        "image_seed"@,
        seed_text(app.image_seed_spec()),
    )
}

/// A record whose fields survive the line-based state file: no field text
/// holds a line break, and an overriding binary is never the bare tilde
/// that stands for none.
pub open spec fn persistable(app: Application) -> bool {
    &&& no_newline(app.workspace_view())
    &&& no_newline(app.image_name_view())
    &&& no_newline(app.image_extension_view())
    &&& match app.app_cli_binary_view() {
        Some(p) => no_newline(p) && p != "~"@,
        None => true,
    }
    &&& no_newline(seed_payload_view(app.image_seed_spec()))
}

/// Whether the text still has a line to take.
pub open spec fn has_line(t: Seq<char>) -> bool {
    first_index_of(t, '\n') is Some
}

/// The text up to the first line break.
pub open spec fn this_line(t: Seq<char>) -> Seq<char> {
    match first_index_of(t, '\n') {
        Some(i) => t.subrange(0, i),
        None => t,
    }
}

/// The text after the first line break.
pub open spec fn after_line(t: Seq<char>) -> Seq<char> {
    match first_index_of(t, '\n') {
        Some(i) => t.subrange(i + 1, t.len() as int),
        None => Seq::<char>::empty(),
    }
}

/// The text with its first `k` lines taken off.
pub open spec fn rest_after(t: Seq<char>, k: nat) -> Seq<char>
    decreases k,
{
    if k == 0 {
        t
    } else {
        after_line(rest_after(t, (k - 1) as nat))
    }
}

/// The value of the `k`-th line, provided that line exists and opens with
/// the given key.
pub open spec fn field_at(t: Seq<char>, k: nat, key: Seq<char>) -> Option<Seq<char>> {
    let rest = rest_after(t, k);
    if has_line(rest) && has_prefix(this_line(rest), key + ": "@) {
        Some(this_line(rest).subrange(key.len() as int + 2, this_line(rest).len() as int))
    } else {
        None
    }
}

/// Whether the text names this record on every line but the workspace one.
pub open spec fn state_matches_but_workspace(t: Seq<char>, app: Application) -> bool {
    &&& field_at(t, 0, "verbose"@) == Some(bool_text(app.verbose_spec()))
    &&& field_at(t, 2, "app_version"@) == Some(version_text_of(app.app_version_spec()))
    &&& field_at(t, 3, "app_cli_binary"@) == Some(binary_text(app.app_cli_binary_view()))
    &&& field_at(t, 4, "image_version"@) == Some(version_text_of(app.image_version_spec()))
    &&& field_at(t, 5, "image_name"@) == Some(app.image_name_view())
    &&& field_at(t, 6, "image_extension"@) == Some(app.image_extension_view())
    &&& field_at(t, 7, "image_seed"@) == Some(seed_text(app.image_seed_spec()))
    &&& rest_after(t, 8).len() == 0
}

/// Whether the text names exactly this record.
pub open spec fn state_parses_to(t: Seq<char>, app: Application) -> bool {
    &&& state_matches_but_workspace(t, app)
    &&& field_at(t, 1, "workspace"@) == Some(app.workspace_view())
}

impl Application {
    /// Renders the record as its state file.
    pub fn state_text(&self) -> (r: String)
        ensures
            r@ == state_text_view(*self),
    {
        proof {
            lemma_key_literals();
        }
        let ghost l0 = line_of("verbose"@, bool_text(self.verbose_spec()));
        let ghost l1 = line_of("workspace"@, self.workspace_view());
        let ghost l2 = line_of("app_version"@, version_text_of(self.app_version_spec()));
        let ghost l3 = line_of("app_cli_binary"@, binary_text(self.app_cli_binary_view()));
        let ghost l4 = line_of("image_version"@, version_text_of(self.image_version_spec()));
        let ghost l5 = line_of("image_name"@, self.image_name_view());
        let ghost l6 = line_of("image_extension"@, self.image_extension_view());
        let ghost l7 = line_of("image_seed"@, seed_text(self.image_seed_spec()));
        let mut r = "verbose: ".to_owned();
        if self.is_verbose() {
            r.append("true");
        } else {
            r.append("false");
        }
        r.append("\n");
        proof {
            assert(r@ =~= l0);
        }
        r.append("workspace: ");
        r.append(self.workspace());
        r.append("\n");
        proof {
            assert(r@ =~= l0 + l1);
        }
        r.append("app_version: ");
        let av = self.app_version().to_text();
        r.append(av.as_str());
        r.append("\n");
        proof {
            assert(r@ =~= l0 + l1 + l2);
        }
        r.append("app_cli_binary: ");
        match self.app_cli_binary() {
            Some(b) => {
                r.append(b);
            },
            None => {
                r.append("~");
            },
        }
        r.append("\n");
        proof {
            assert(r@ =~= l0 + l1 + l2 + l3);
        }
        r.append("image_version: ");
        let iv = self.image_version().to_text();
        r.append(iv.as_str());
        r.append("\n");
        proof {
            assert(r@ =~= l0 + l1 + l2 + l3 + l4);
        }
        r.append("image_name: ");
        r.append(self.image_name());
        r.append("\n");
        proof {
            assert(r@ =~= l0 + l1 + l2 + l3 + l4 + l5);
        }
        r.append("image_extension: ");
        r.append(self.image_extension());
        r.append("\n");
        proof {
            assert(r@ =~= l0 + l1 + l2 + l3 + l4 + l5 + l6);
        }
        r.append("image_seed: ");
        match self.image_seed() {
            ImageSeed::Url(u) => {
                r.append("url ");
                r.append(u.as_str());
            },
            ImageSeed::Zip(p) => {
                r.append("zip ");
                r.append(p.as_str());
            },
            ImageSeed::Image(p) => {
                r.append("image ");
                r.append(p.as_str());
            },
        }
        r.append("\n");
        proof {
            assert(r@ =~= l0 + l1 + l2 + l3 + l4 + l5 + l6 + l7);
            assert(state_text_view(*self) == l0 + l1 + l2 + l3 + l4 + l5 + l6 + l7);
        }
        r
    }
}

/// The views of the fixed texts of the state file, spelled out.
#[verifier::rlimit(100)]
proof fn lemma_key_literals()
    ensures
        "verbose: "@ == "verbose"@ + ": "@,
        "workspace: "@ == "workspace"@ + ": "@,
        "app_version: "@ == "app_version"@ + ": "@,
        "app_cli_binary: "@ == "app_cli_binary"@ + ": "@,
        "image_version: "@ == "image_version"@ + ": "@,
        "image_name: "@ == "image_name"@ + ": "@,
        "image_extension: "@ == "image_extension"@ + ": "@,
        "image_seed: "@ == "image_seed"@ + ": "@,
        "\n"@ == seq!['\n'],
        no_newline("verbose"@),
        no_newline("workspace"@),
        no_newline("app_version"@),
        no_newline("app_cli_binary"@),
        no_newline("image_version"@),
        no_newline("image_name"@),
        no_newline("image_extension"@),
        no_newline("image_seed"@),
        no_newline(": "@),
        no_newline("true"@),
        no_newline("false"@),
        no_newline("~"@),
        no_newline("url "@),
        no_newline("zip "@),
        no_newline("image "@),
        "true"@ != "false"@,
        ": "@.len() == 2,
        "url "@.len() == 4,
        "zip "@.len() == 4,
        "image "@.len() == 6,
{
    reveal_strlit("verbose: ");
    reveal_strlit("workspace: ");
    reveal_strlit("app_version: ");
    reveal_strlit("app_cli_binary: ");
    reveal_strlit("image_version: ");
    reveal_strlit("image_name: ");
    reveal_strlit("image_extension: ");
    reveal_strlit("image_seed: ");
    reveal_strlit("verbose");
    reveal_strlit("workspace");
    reveal_strlit("app_version");
    reveal_strlit("app_cli_binary");
    reveal_strlit("image_version");
    reveal_strlit("image_name");
    reveal_strlit("image_extension");
    reveal_strlit("image_seed");
    reveal_strlit(": ");
    reveal_strlit("\n");
    reveal_strlit("true");
    reveal_strlit("false");
    reveal_strlit("~");
    reveal_strlit("url ");
    reveal_strlit("zip ");
    reveal_strlit("image ");
    assert("verbose: "@ =~= "verbose"@ + ": "@);
    assert("workspace: "@ =~= "workspace"@ + ": "@);
    assert("app_version: "@ =~= "app_version"@ + ": "@);
    assert("app_cli_binary: "@ =~= "app_cli_binary"@ + ": "@);
    assert("image_version: "@ =~= "image_version"@ + ": "@);
    assert("image_name: "@ =~= "image_name"@ + ": "@);
    assert("image_extension: "@ =~= "image_extension"@ + ": "@);
    assert("image_seed: "@ =~= "image_seed"@ + ": "@);
    assert("\n"@ =~= seq!['\n']);
    assert("true"@.len() == 4 && "false"@.len() == 5);
}

/// A version's text holds digits and dots only, never a line break.
proof fn lemma_version_text_no_newline(v: Version)
    ensures
        no_newline(version_text_of(v)),
{
    lemma_dec_of_digits(v.major as nat);
    lemma_dec_of_digits(v.minor as nat);
    lemma_dec_of_digits(v.patch as nat);
    let s = version_text_of(v);
    assert forall|i: int| 0 <= i < s.len() implies s[i] != '\n' by {
        let a = crate::strutil::dec_of(v.major as nat);
        let b = crate::strutil::dec_of(v.minor as nat);
        let c = crate::strutil::dec_of(v.patch as nat);
        if i < a.len() {
            assert(s[i] == a[i]);
            assert(is_digit(a[i]));
        } else if i == a.len() {
            assert(s[i] == '.');
        } else if i < a.len() + 1 + b.len() {
            assert(s[i] == b[i - a.len() - 1]);
            assert(is_digit(b[i - a.len() - 1]));
        } else if i == a.len() + 1 + b.len() {
            assert(s[i] == '.');
        } else {
            assert(s[i] == c[i - a.len() - b.len() - 2]);
            assert(is_digit(c[i - a.len() - b.len() - 2]));
        }
    }
}

/// Taking one line off a well-formed head line yields its key, its value,
/// and the rest.
proof fn lemma_take_line(key: Seq<char>, value: Seq<char>, rest: Seq<char>)
    requires
        no_newline(key),
        no_newline(": "@),
        no_newline(value),
    ensures
        has_line(line_of(key, value) + rest),
        this_line(line_of(key, value) + rest) == key + ": "@ + value,
        after_line(line_of(key, value) + rest) == rest,
{
    reveal_strlit(": ");
    let head = key + ": "@ + value;
    let s = line_of(key, value) + rest;
    assert(": "@.len() == 2);
    assert(s =~= head + seq!['\n'] + rest);
    assert forall|i: int| 0 <= i < head.len() implies head[i] != '\n' by {
        if i < key.len() {
            assert(head[i] == key[i]);
        } else if i < key.len() + 2 {
            assert(head[i] == ": "@[i - key.len()]);
        } else {
            assert(head[i] == value[i - key.len() - 2]);
        }
    }
    lemma_first_index_of_concat(head, '\n', rest);
    assert(this_line(s) =~= head);
    assert(after_line(s) =~= rest);
}

/// The value of a well-formed head line, under its own key.
proof fn lemma_field_of_line(key: Seq<char>, value: Seq<char>, rest: Seq<char>)
    requires
        no_newline(key),
        no_newline(": "@),
        no_newline(value),
    ensures
        has_line(line_of(key, value) + rest),
        after_line(line_of(key, value) + rest) == rest,
        ({
            let t = line_of(key, value) + rest;
            has_prefix(this_line(t), key + ": "@) && this_line(t).subrange(
                key.len() as int + 2,
                this_line(t).len() as int,
            ) == value
        }),
{
    reveal_strlit(": ");
    lemma_take_line(key, value, rest);
    let t = line_of(key, value) + rest;
    assert(": "@.len() == 2);
    assert(this_line(t) == (key + ": "@) + value);
    assert(this_line(t).subrange(0, key.len() as int + 2) =~= key + ": "@);
    assert(this_line(t).subrange(key.len() as int + 2, this_line(t).len() as int) =~= value);
}

/// Rendering a record as its state file and reading the text back names
/// the same record: the round-trip law of the persisted state.
pub proof fn lemma_state_round_trip(app: Application)
    requires
        persistable(app),
    ensures
        state_parses_to(state_text_view(app), app),
{
    lemma_key_literals();
    lemma_version_text_no_newline(app.app_version_spec());
    lemma_version_text_no_newline(app.image_version_spec());
    let t = state_text_view(app);
    let v0 = bool_text(app.verbose_spec());
    let v1 = app.workspace_view();
    let v2 = version_text_of(app.app_version_spec());
    let v3 = binary_text(app.app_cli_binary_view());
    let v4 = version_text_of(app.image_version_spec());
    let v5 = app.image_name_view();
    let v6 = app.image_extension_view();
    let v7 = seed_text(app.image_seed_spec());
    assert(no_newline(v0));
    assert(no_newline(v3));
    assert(no_newline(v7)) by {
        match app.image_seed_spec() {
            ImageSeed::Url(u) => {
                assert forall|i: int| 0 <= i < v7.len() implies v7[i] != '\n' by {
                    if i < 4 {
                        assert(v7[i] == "url "@[i]);
                    } else {
                        assert(v7[i] == u@[i - 4]);
                    }
                }
            },
            ImageSeed::Zip(p) => {
                assert forall|i: int| 0 <= i < v7.len() implies v7[i] != '\n' by {
                    if i < 4 {
                        assert(v7[i] == "zip "@[i]);
                    } else {
                        assert(v7[i] == p@[i - 4]);
                    }
                }
            },
            ImageSeed::Image(p) => {
                assert forall|i: int| 0 <= i < v7.len() implies v7[i] != '\n' by {
                    if i < 6 {
                        assert(v7[i] == "image "@[i]);
                    } else {
                        assert(v7[i] == p@[i - 6]);
                    }
                }
            },
        }
    }
    let t1 = line_of("workspace"@, v1) + line_of("app_version"@, v2) + line_of(
        "app_cli_binary"@,
        v3,
    ) + line_of("image_version"@, v4) + line_of("image_name"@, v5) + line_of(
        "image_extension"@,
        v6,
    ) + line_of("image_seed"@, v7);
    let t2 = line_of("app_version"@, v2) + line_of("app_cli_binary"@, v3) + line_of(
        "image_version"@,
        v4,
    ) + line_of("image_name"@, v5) + line_of("image_extension"@, v6) + line_of("image_seed"@, v7);
    let t3 = line_of("app_cli_binary"@, v3) + line_of("image_version"@, v4) + line_of(
        "image_name"@,
        v5,
    ) + line_of("image_extension"@, v6) + line_of("image_seed"@, v7);
    let t4 = line_of("image_version"@, v4) + line_of("image_name"@, v5) + line_of(
        "image_extension"@,
        v6,
    ) + line_of("image_seed"@, v7);
    let t5 = line_of("image_name"@, v5) + line_of("image_extension"@, v6) + line_of(
        "image_seed"@,
        v7,
    );
    let t6 = line_of("image_extension"@, v6) + line_of("image_seed"@, v7);
    let t7 = line_of("image_seed"@, v7);
    let t8 = Seq::<char>::empty();
    assert(t =~= line_of("verbose"@, v0) + t1);
    assert(t1 =~= line_of("workspace"@, v1) + t2);
    assert(t2 =~= line_of("app_version"@, v2) + t3);
    assert(t3 =~= line_of("app_cli_binary"@, v3) + t4);
    assert(t4 =~= line_of("image_version"@, v4) + t5);
    assert(t5 =~= line_of("image_name"@, v5) + t6);
    assert(t6 =~= line_of("image_extension"@, v6) + t7);
    assert(t7 =~= line_of("image_seed"@, v7) + t8);
    lemma_field_of_line("verbose"@, v0, t1);
    lemma_field_of_line("workspace"@, v1, t2);
    lemma_field_of_line("app_version"@, v2, t3);
    lemma_field_of_line("app_cli_binary"@, v3, t4);
    lemma_field_of_line("image_version"@, v4, t5);
    lemma_field_of_line("image_name"@, v5, t6);
    lemma_field_of_line("image_extension"@, v6, t7);
    lemma_field_of_line("image_seed"@, v7, t8);
    assert(rest_after(t, 0) == t);
    assert(rest_after(t, 1) == t1);
    assert(rest_after(t, 2) == t2);
    assert(rest_after(t, 3) == t3);
    assert(rest_after(t, 4) == t4);
    assert(rest_after(t, 5) == t5);
    assert(rest_after(t, 6) == t6);
    assert(rest_after(t, 7) == t7);
    assert(rest_after(t, 8) == t8);
}


/// Splits the text at its first line break.
pub fn take_line(t: &str) -> (r: Option<(String, String)>)
    ensures
        match r {
            Some(pair) => has_line(t@) && pair.0@ == this_line(t@) && pair.1@ == after_line(t@),
            None => !has_line(t@),
        },
{
    let n = t.unicode_len();
    match str_find_char(t, '\n') {
        Some(i) => {
            let line = substring_copy(t, 0, i);
            let rest = substring_copy(t, i + 1, n);
            Some((line, rest))
        },
        None => None,
    }
}

/// The value of a line under the given key, when the line opens with it.
fn field_value(line: &str, key: &str) -> (r: Option<String>)
    ensures
        match r {
            Some(v) => has_prefix(line@, key@ + ": "@) && v@ == line@.subrange(
                key@.len() as int + 2,
                line@.len() as int,
            ),
            None => !has_prefix(line@, key@ + ": "@),
        },
{
    proof {
        reveal_strlit(": ");
    }
    let mut prefix = key.to_owned();
    prefix.append(": ");
    proof {
        assert(prefix@ =~= key@ + ": "@);
    }
    if str_starts_with(line, prefix.as_str()) {
        let n = line.unicode_len();
        let k = key.unicode_len();
        Some(substring_copy(line, k + 2, n))
    } else {
        None
    }
}

/// Reads a state file back into a record running on the given host. The
/// text parses exactly when some record writes it; anything else is a
/// serialization error.
pub fn parse_state_text(text: &str, host: PlatformOS) -> (r: Result<Application, InstallerError>)
    ensures
        match r {
            Ok(app) => state_parses_to(text@, app) && app.host_spec() == host,
            Err(e) => e is SerializationError && (forall|app: Application|
                !state_parses_to(text@, app)),
        },
{
    proof {
        lemma_key_literals();
    }
    let ghost t = text@;
    proof {
        assert(rest_after(t, 0) == t);
    }
    // verbose
    let (line0, rest1) = match take_line(text) {
        Some(p) => p,
        None => {
            proof {
                assert(field_at(t, 0, "verbose"@) is None);
            }
            return Err(state_error());
        },
    };
    let v0 = match field_value(line0.as_str(), "verbose") {
        Some(v) => v,
        None => {
            proof {
                assert(field_at(t, 0, "verbose"@) is None);
            }
            return Err(state_error());
        },
    };
    proof {
        assert(field_at(t, 0, "verbose"@) == Some(v0@));
        assert(rest_after(t, 1) == rest1@);
    }
    let verbose: bool = if str_eq(v0.as_str(), "true") {
        true
    } else if str_eq(v0.as_str(), "false") {
        false
    } else {
        proof {
            assert forall|app: Application| !state_parses_to(t, app) by {
                if state_parses_to(t, app) {
                    assert(v0@ == bool_text(app.verbose_spec()));
                }
            }
        }
        return Err(state_error());
    };
    // workspace
    let (line1, rest2) = match take_line(rest1.as_str()) {
        Some(p) => p,
        None => {
            proof {
                assert(field_at(t, 1, "workspace"@) is None);
            }
            return Err(state_error());
        },
    };
    let v1 = match field_value(line1.as_str(), "workspace") {
        Some(v) => v,
        None => {
            proof {
                assert(field_at(t, 1, "workspace"@) is None);
            }
            return Err(state_error());
        },
    };
    proof {
        assert(field_at(t, 1, "workspace"@) == Some(v1@));
        assert(rest_after(t, 2) == rest2@);
    }
    // app_version
    let (line2, rest3) = match take_line(rest2.as_str()) {
        Some(p) => p,
        None => {
            proof {
                assert(field_at(t, 2, "app_version"@) is None);
            }
            return Err(state_error());
        },
    };
    let v2 = match field_value(line2.as_str(), "app_version") {
        Some(v) => v,
        None => {
            proof {
                assert(field_at(t, 2, "app_version"@) is None);
            }
            return Err(state_error());
        },
    };
    proof {
        assert(field_at(t, 2, "app_version"@) == Some(v2@));
        assert(rest_after(t, 3) == rest3@);
    }
    let app_version_value = match parse_rendered_version(v2.as_str()) {
        Some(v) => v,
        None => {
            proof {
                assert forall|app: Application| !state_parses_to(t, app) by {
                    if state_parses_to(t, app) {
                        lemma_version_round_trip_dotted(app.app_version_spec());
                    }
                }
            }
            return Err(state_error());
        },
    };
    // app_cli_binary
    let (line3, rest4) = match take_line(rest3.as_str()) {
        Some(p) => p,
        None => {
            proof {
                assert(field_at(t, 3, "app_cli_binary"@) is None);
            }
            return Err(state_error());
        },
    };
    let v3 = match field_value(line3.as_str(), "app_cli_binary") {
        Some(v) => v,
        None => {
            proof {
                assert(field_at(t, 3, "app_cli_binary"@) is None);
            }
            return Err(state_error());
        },
    };
    proof {
        assert(field_at(t, 3, "app_cli_binary"@) == Some(v3@));
        assert(rest_after(t, 4) == rest4@);
    }
    let app_cli_binary: Option<String> = if str_eq(v3.as_str(), "~") {
        None
    } else {
        Some(v3)
    };
    // image_version
    let (line4, rest5) = match take_line(rest4.as_str()) {
        Some(p) => p,
        None => {
            proof {
                assert(field_at(t, 4, "image_version"@) is None);
            }
            return Err(state_error());
        },
    };
    let v4 = match field_value(line4.as_str(), "image_version") {
        Some(v) => v,
        None => {
            proof {
                assert(field_at(t, 4, "image_version"@) is None);
            }
            return Err(state_error());
        },
    };
    proof {
        assert(field_at(t, 4, "image_version"@) == Some(v4@));
        assert(rest_after(t, 5) == rest5@);
    }
    let image_version_value = match parse_rendered_version(v4.as_str()) {
        Some(v) => v,
        None => {
            proof {
                assert forall|app: Application| !state_parses_to(t, app) by {
                    if state_parses_to(t, app) {
                        lemma_version_round_trip_dotted(app.image_version_spec());
                    }
                }
            }
            return Err(state_error());
        },
    };
    // image_name
    let (line5, rest6) = match take_line(rest5.as_str()) {
        Some(p) => p,
        None => {
            proof {
                assert(field_at(t, 5, "image_name"@) is None);
            }
            return Err(state_error());
        },
    };
    let v5 = match field_value(line5.as_str(), "image_name") {
        Some(v) => v,
        None => {
            proof {
                assert(field_at(t, 5, "image_name"@) is None);
            }
            return Err(state_error());
        },
    };
    proof {
        assert(field_at(t, 5, "image_name"@) == Some(v5@));
        assert(rest_after(t, 6) == rest6@);
    }
    // image_extension
    let (line6, rest7) = match take_line(rest6.as_str()) {
        Some(p) => p,
        None => {
            proof {
                assert(field_at(t, 6, "image_extension"@) is None);
            }
            return Err(state_error());
        },
    };
    let v6 = match field_value(line6.as_str(), "image_extension") {
        Some(v) => v,
        None => {
            proof {
                assert(field_at(t, 6, "image_extension"@) is None);
            }
            return Err(state_error());
        },
    };
    proof {
        assert(field_at(t, 6, "image_extension"@) == Some(v6@));
        assert(rest_after(t, 7) == rest7@);
    }
    // image_seed
    let (line7, rest8) = match take_line(rest7.as_str()) {
        Some(p) => p,
        None => {
            proof {
                assert(field_at(t, 7, "image_seed"@) is None);
            }
            return Err(state_error());
        },
    };
    let v7 = match field_value(line7.as_str(), "image_seed") {
        Some(v) => v,
        None => {
            proof {
                assert(field_at(t, 7, "image_seed"@) is None);
            }
            return Err(state_error());
        },
    };
    proof {
        assert(field_at(t, 7, "image_seed"@) == Some(v7@));
        assert(rest_after(t, 8) == rest8@);
    }
    let n7 = v7.as_str().unicode_len();
    let image_seed: ImageSeed = if str_starts_with(v7.as_str(), "url ") {
        let payload = substring_copy(v7.as_str(), 4, n7);
        ImageSeed::Url(payload)
    } else if str_starts_with(v7.as_str(), "zip ") {
        let payload = substring_copy(v7.as_str(), 4, n7);
        ImageSeed::Zip(payload)
    } else if str_starts_with(v7.as_str(), "image ") {
        let payload = substring_copy(v7.as_str(), 6, n7);
        ImageSeed::Image(payload)
    } else {
        proof {
            assert forall|app: Application| !state_parses_to(t, app) by {
                if state_parses_to(t, app) {
                    assert(v7@ == seed_text(app.image_seed_spec()));
                    match app.image_seed_spec() {
                        ImageSeed::Url(u) => {
                            assert(v7@.subrange(0, 4) =~= "url "@);
                        },
                        ImageSeed::Zip(p) => {
                            assert(v7@.subrange(0, 4) =~= "zip "@);
                        },
                        ImageSeed::Image(p) => {
                            assert(v7@.subrange(0, 6) =~= "image "@);
                        },
                    }
                }
            }
        }
        return Err(state_error());
    };
    // nothing may follow
    if rest8.as_str().unicode_len() != 0 {
        return Err(state_error());
    }
    let app = Application::assemble(
        verbose,
        v1,
        AppVersion::new(app_version_value),
        app_cli_binary,
        ImageVersion::new(image_version_value),
        v5,
        v6,
        image_seed,
        host,
    );
    proof {
        assert(seed_text(app.image_seed_spec()) =~= v7@);
        assert(state_parses_to(t, app));
    }
    Ok(app)
}

/// Reads a version written in the canonical dotted form; text in any other
/// shape, a leading `v` or a leading zero included, is refused.
fn parse_rendered_version(s: &str) -> (r: Option<Version>)
    ensures
        match r {
            Some(v) => s@ == version_text_of(v),
            None => forall|v: Version| s@ != version_text_of(v),
        },
{
    let parsed = match Version::parse_dotted(s) {
        Some(v) => v,
        None => {
            proof {
                assert forall|v: Version| s@ != version_text_of(v) by {
                    if s@ == version_text_of(v) {
                        lemma_version_round_trip_dotted(v);
                    }
                }
            }
            return None;
        },
    };
    let rendered = parsed.to_text();
    if str_eq(rendered.as_str(), s) {
        Some(parsed)
    } else {
        proof {
            assert forall|v: Version| s@ != version_text_of(v) by {
                if s@ == version_text_of(v) {
                    lemma_version_round_trip_dotted(v);
                }
            }
        }
        None
    }
}

fn state_error() -> (r: InstallerError)
    ensures
        r is SerializationError,
{
    InstallerError::SerializationError("the state text is not of the expected form".to_owned())
}


/// One text names at most one persistable record: with the round-trip law
/// this makes saving and loading idempotent on every field.
pub proof fn lemma_state_unambiguous(t: Seq<char>, a: Application, b: Application)
    requires
        state_parses_to(t, a),
        state_parses_to(t, b),
        persistable(a),
        persistable(b),
    ensures
        a.verbose_spec() == b.verbose_spec(),
        a.workspace_view() == b.workspace_view(),
        a.app_version_spec() == b.app_version_spec(),
        a.app_cli_binary_view() == b.app_cli_binary_view(),
        a.image_version_spec() == b.image_version_spec(),
        a.image_name_view() == b.image_name_view(),
        a.image_extension_view() == b.image_extension_view(),
        crate::seed::seed_matches(a.image_seed_spec(), b.image_seed_spec()),
{
    lemma_key_literals();
    assert(bool_text(a.verbose_spec()) == bool_text(b.verbose_spec()));
    if a.verbose_spec() != b.verbose_spec() {
        assert("true"@.len() != "false"@.len()) by {
            reveal_strlit("true");
            reveal_strlit("false");
        }
    }
    lemma_version_round_trip_dotted(a.app_version_spec());
    lemma_version_round_trip_dotted(b.app_version_spec());
    lemma_version_round_trip_dotted(a.image_version_spec());
    lemma_version_round_trip_dotted(b.image_version_spec());
    assert(binary_text(a.app_cli_binary_view()) == binary_text(b.app_cli_binary_view()));
    match (a.app_cli_binary_view(), b.app_cli_binary_view()) {
        (Some(p), None) => {
            assert(p == "~"@);
        },
        (None, Some(p)) => {
            assert(p == "~"@);
        },
        _ => {},
    }
    let sa = a.image_seed_spec();
    let sb = b.image_seed_spec();
    assert(seed_text(sa) == seed_text(sb));
    lemma_seed_text_unambiguous(sa, sb);
}

/// Two seeds written the same way are the same seed.
proof fn lemma_seed_text_unambiguous(sa: ImageSeed, sb: ImageSeed)
    requires
        seed_text(sa) == seed_text(sb),
    ensures
        crate::seed::seed_matches(sa, sb),
{
    reveal_strlit("url ");
    reveal_strlit("zip ");
    reveal_strlit("image ");
    let ta = seed_text(sa);
    match (sa, sb) {
        (ImageSeed::Url(x), ImageSeed::Url(y)) => {
            assert(ta == "url "@ + x@);
            assert(seed_text(sb) == "url "@ + y@);
            assert(x@.len() == ta.len() - 4);
            assert(y@.len() == ta.len() - 4);
            assert forall|i: int| 0 <= i < x@.len() implies x@[i] == y@[i] by {
                assert(("url "@ + x@)[i + 4] == x@[i]);
                assert(("url "@ + y@)[i + 4] == y@[i]);
            }
            assert(x@ =~= y@);
        },
        (ImageSeed::Zip(x), ImageSeed::Zip(y)) => {
            assert(ta == "zip "@ + x@);
            assert(seed_text(sb) == "zip "@ + y@);
            assert(x@.len() == ta.len() - 4);
            assert(y@.len() == ta.len() - 4);
            assert forall|i: int| 0 <= i < x@.len() implies x@[i] == y@[i] by {
                assert(("zip "@ + x@)[i + 4] == x@[i]);
                assert(("zip "@ + y@)[i + 4] == y@[i]);
            }
            assert(x@ =~= y@);
        },
        (ImageSeed::Image(x), ImageSeed::Image(y)) => {
            assert(ta == "image "@ + x@);
            assert(seed_text(sb) == "image "@ + y@);
            assert(x@.len() == ta.len() - 6);
            assert(y@.len() == ta.len() - 6);
            assert forall|i: int| 0 <= i < x@.len() implies x@[i] == y@[i] by {
                assert(("image "@ + x@)[i + 6] == x@[i]);
                assert(("image "@ + y@)[i + 6] == y@[i]);
            }
            assert(x@ =~= y@);
        },
        _ => {
            assert(ta[0] == seed_text(sb)[0]);
        },
    }
}

impl Application {
    /// Reads a record back from a state file found in a workspace: the
    /// record's fields come from the text, while the workspace is the one
    /// the file was found in, and the host the one this invocation runs on.
    pub fn from_state_text(text: &str, workspace: &str, host: PlatformOS) -> (r: Result<
        Application,
        InstallerError,
    >)
        ensures
            match r {
                Ok(app) => {
                    &&& state_matches_but_workspace(text@, app)
                    &&& app.workspace_view() == workspace@
                    &&& app.host_spec() == host
                    &&& exists|b: Application| state_parses_to(text@, b)
                },
                Err(e) => e is SerializationError && (forall|app: Application|
                    !state_parses_to(text@, app)),
            },
    {
        let mut app = parse_state_text(text, host)?;
        let ghost parsed = app;
        app.set_workspace(workspace);
        proof {
            assert(state_parses_to(text@, parsed));
            lemma_seed_text_same(parsed.image_seed_spec(), app.image_seed_spec());
            assert(state_matches_but_workspace(text@, app));
        }
        Ok(app)
    }
}

/// Seeds of the same kind and payload are written the same way.
proof fn lemma_seed_text_same(sa: ImageSeed, sb: ImageSeed)
    requires
        crate::seed::seed_matches(sa, sb),
    ensures
        seed_text(sa) == seed_text(sb),
{
    match (sa, sb) {
        (ImageSeed::Url(x), ImageSeed::Url(y)) => {
            assert(seed_text(sa) == "url "@ + x@ && seed_text(sb) == "url "@ + y@ && x@ == y@);
        },
        (ImageSeed::Zip(x), ImageSeed::Zip(y)) => {
            assert(seed_text(sa) == "zip "@ + x@ && seed_text(sb) == "zip "@ + y@ && x@ == y@);
        },
        (ImageSeed::Image(x), ImageSeed::Image(y)) => {
            assert(seed_text(sa) == "image "@ + x@ && seed_text(sb) == "image "@ + y@ && x@
                == y@);
        },
        _ => {},
    }
}

} // verus!
