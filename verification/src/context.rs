//! The values every page template receives.

use vstd::prelude::*;
use crate::models::UserRole;
use crate::text::{validate_lang, validated_lang};

verus! {

/// The template context of `tera`.
#[verifier::external_type_specification]
#[verifier::external_body]
pub struct ExContext(tera::Context);

/// The entries of a `tera::Context` whose value is a text, by key.
pub uninterp spec fn context_texts(ctx: tera::Context) -> Map<Seq<char>, Seq<char>>;

/// A context with no text entries.
pub open spec fn no_texts() -> Map<Seq<char>, Seq<char>> {
    Map::empty()
}

/// Calls `tera::Context::new`, which makes a context with no entries.
#[verifier::external_body]
fn context_new() -> (fresh: tera::Context)
    ensures
        context_texts(fresh) == no_texts(),
{
    tera::Context::new()
}

/// Calls `tera::Context::insert` with a text value: the entry under `key`
/// is set to `value`, replacing any earlier entry under that key, and the
/// other entries stay. (Turning a `&str` into a JSON value cannot fail, so
/// the call does not panic.)
#[verifier::external_body]
fn context_insert_text(ctx: &mut tera::Context, key: &str, value: &str)
    ensures
        context_texts(*final(ctx)) == context_texts(*old(ctx)).insert(key@, value@),
{
    ctx.insert(key, value)
}

/// The entries of the context a page starts from.
pub open spec fn page_entries(
    session_user: Seq<char>,
    role: UserRole,
    lang: Seq<char>,
    path: Seq<char>,
) -> Map<Seq<char>, Seq<char>> {
    no_texts().insert("session_user"@, session_user).insert(
        "role"@,
        role.spec_label(),
    ).insert("lang"@, validated_lang(lang)).insert("path"@, path)
}

/// The context a page starts from, for the user `session_user` with `role`
/// who asked for `path` in the language `lang`: the user, the role's name,
/// the language shown ("fr" or "en") and the path. The user, the role and
/// the language as asked for come back beside it.
pub fn generate_email_context(
    session_user: String,
    role: UserRole,
    lang: &str,
    path: &str,
) -> (r: (tera::Context, String, UserRole, String))
    ensures
        context_texts(r.0) == page_entries(session_user@, role, lang@, path@),
        r.1 == session_user,
        r.2 == role,
        r.3@ == lang@,
{
    let mut ctx = context_new();
    context_insert_text(&mut ctx, "session_user", session_user.as_str());
    context_insert_text(&mut ctx, "role", role.label());
    context_insert_text(&mut ctx, "lang", validate_lang(lang));
    context_insert_text(&mut ctx, "path", path);
    (ctx, session_user, role, lang.to_owned())
}

} // verus!
