use vstd::prelude::*;
use crate::assets::{RootAsset, asset_named, find_root_asset};
use crate::errors::AppError;
use crate::roles::{Role, SessionData};
use crate::text::{i64_parse, int_text, parse_i64, split_on, split_text, text_eq, views};

verus! {

/// The request methods the site tells apart.
#[derive(Debug, Clone, Copy, PartialEq, Eq, Structural)]
pub enum Method {
    Get,
    Post,
    Other,
}

/// What is served at a character of one's own, once the character has been
/// found among the user's characters.
#[derive(Debug, Clone, Copy, PartialEq, Eq, Structural)]
pub enum CharacterPage {
    /// The path lacks its trailing slash: redirect to the path with one.
    AddSlash,
    /// Show the character sheet (GET).
    Sheet,
    /// Save spent experience (POST).
    SaveDraft,
}

/// The handler a request is routed to.
#[derive(Debug, PartialEq, Eq)]
pub enum Target {
    /// The path lacks its trailing slash: permanently redirect to the path
    /// with a slash appended.
    AddSlash,
    /// The front page.
    Home,
    /// The identity provider's callback that completes a login.
    FinishLogin,
    /// The user must log in first: start the login flow.
    StartLogin,
    /// The public list of characters.
    PublicCharacters,
    /// The signed-in user's own characters.
    MyCharacters,
    /// Create a draft character.
    CreateCharacter,
    /// A character of the user's own with this id; the page is decided after
    /// the character is found (an unknown character answers "not found").
    OwnCharacter(i64, Result<CharacterPage, AppError>),
    /// The storyteller start page.
    AdminHome,
    /// The list of users.
    AdminUsers,
    /// One user.
    AdminUser(i64),
    /// Update one user.
    AdminUpdateUser(i64),
    /// The list of all characters.
    AdminCharacters,
    /// Create a character for some user.
    AdminCreateCharacter,
    /// One character, with its pending experience.
    AdminCharacter(i64),
    /// Update, review or approve one character.
    AdminCharacterAction(i64),
    /// The edit form of one character.
    AdminEditCharacter(i64),
    /// Save the edit form of one character.
    AdminSaveCharacter(i64),
    /// The wiki start page.
    WikiIndex,
    /// A wiki page by name.
    WikiPage(String),
    /// A file served from the site root.
    Asset(RootAsset),
}

/// How the answer to a request is sent: to which handler, whether the cookie
/// changes from authentication go along, and whether it may be cached.
#[derive(Debug, PartialEq, Eq)]
pub struct RoutePlan {
    pub target: Result<Target, AppError>,
    pub forward_auth_cookies: bool,
    pub cacheable: bool,
}

/// The `Cache-Control` value an answer carries: the wiki and the root
/// assets may be kept for a day, everything else is never stored.
pub open spec fn cache_control_of(cacheable: bool) -> Seq<char> {
    if cacheable {
        "public, max-age=86400"@
    } else {
        "no-store"@
    }
}

impl RoutePlan {
    /// The `Cache-Control` value of the answer.
    pub fn cache_control(&self) -> (r: &'static str)
        ensures
            r@ == cache_control_of(self.cacheable),
    {
        if self.cacheable {
            "public, max-age=86400"
        } else {
            "no-store"
        }
    }
}

/// A page at exactly this spot answering one method.
pub open spec fn single_page(rest: Seq<Seq<char>>, method: Method, wanted: Method, t: Target) -> Result<Target, AppError> {
    if rest.len() != 0 {
        Err(AppError::PathNotFound)
    } else if method != wanted {
        Err(AppError::MethodNotFound)
    } else {
        Ok(t)
    }
}

/// A form page: GET shows it, POST submits it.
pub open spec fn form_page(method: Method, get: Target, post: Target) -> Result<Target, AppError> {
    match method {
        Method::Get => Ok(get),
        Method::Post => Ok(post),
        Method::Other => Err(AppError::MethodNotFound),
    }
}

// ----- the routing table, one spec per level of the path -----

pub open spec fn characters_routes(rest: Seq<Seq<char>>, method: Method) -> Result<Target, AppError> {
    if rest.len() == 0 {
        Ok(Target::AddSlash)
    } else if rest[0] == ""@ {
        single_page(rest.skip(1), method, Method::Get, Target::PublicCharacters)
    } else {
        Err(AppError::PathNotFound)
    }
}

pub open spec fn own_character_page(rest: Seq<Seq<char>>, method: Method) -> Result<CharacterPage, AppError> {
    if rest.len() == 0 {
        Ok(CharacterPage::AddSlash)
    } else if rest[0] == ""@ {
        if rest.skip(1).len() != 0 {
            Err(AppError::PathNotFound)
        } else {
            match method {
                Method::Get => Ok(CharacterPage::Sheet),
                Method::Post => Ok(CharacterPage::SaveDraft),
                Method::Other => Err(AppError::MethodNotFound),
            }
        }
    } else {
        Err(AppError::PathNotFound)
    }
}

pub open spec fn character_routes(rest: Seq<Seq<char>>, method: Method) -> Result<Target, AppError> {
    if rest.len() == 0 {
        Ok(Target::AddSlash)
    } else if rest[0] == ""@ {
        if rest.skip(1).len() != 0 {
            Err(AppError::PathNotFound)
        } else {
            form_page(method, Target::MyCharacters, Target::CreateCharacter)
        }
    } else {
        match i64_parse(rest[0]) {
            None => Err(AppError::BadPathId),
            Some(id) => Ok(Target::OwnCharacter(id, own_character_page(rest.skip(1), method))),
        }
    }
}

pub open spec fn admin_user_routes(rest: Seq<Seq<char>>, method: Method) -> Result<Target, AppError> {
    if rest.len() == 0 {
        Ok(Target::AddSlash)
    } else if rest[0] == ""@ {
        single_page(rest.skip(1), method, Method::Get, Target::AdminUsers)
    } else {
        match i64_parse(rest[0]) {
            None => Err(AppError::BadPathId),
            Some(id) => {
                let tail = rest.skip(1);
                if tail.len() == 0 {
                    Ok(Target::AddSlash)
                } else if tail[0] == ""@ {
                    form_page(method, Target::AdminUser(id), Target::AdminUpdateUser(id))
                } else {
                    Err(AppError::PathNotFound)
                }
            },
        }
    }
}

pub open spec fn admin_character_edit_routes(rest: Seq<Seq<char>>, method: Method, id: i64) -> Result<Target, AppError> {
    if rest.len() == 0 {
        Ok(Target::AddSlash)
    } else if rest[0] == ""@ {
        form_page(method, Target::AdminEditCharacter(id), Target::AdminSaveCharacter(id))
    } else {
        Err(AppError::PathNotFound)
    }
}

pub open spec fn admin_character_routes(rest: Seq<Seq<char>>, method: Method) -> Result<Target, AppError> {
    if rest.len() == 0 {
        Ok(Target::AddSlash)
    } else if rest[0] == ""@ {
        form_page(method, Target::AdminCharacters, Target::AdminCreateCharacter)
    } else {
        match i64_parse(rest[0]) {
            None => Err(AppError::BadPathId),
            Some(id) => {
                let tail = rest.skip(1);
                if tail.len() == 0 {
                    Ok(Target::AddSlash)
                } else if tail[0] == ""@ {
                    form_page(method, Target::AdminCharacter(id), Target::AdminCharacterAction(id))
                } else if tail[0] == "edit"@ {
                    admin_character_edit_routes(tail.skip(1), method, id)
                } else {
                    Err(AppError::PathNotFound)
                }
            },
        }
    }
}

pub open spec fn admin_routes(rest: Seq<Seq<char>>, method: Method, session: SessionData) -> Result<Target, AppError> {
    if session.role != Role::Storyteller {
        Err(AppError::Forbidden)
    } else if rest.len() == 0 {
        Ok(Target::AddSlash)
    } else if rest[0] == ""@ {
        single_page(rest.skip(1), method, Method::Get, Target::AdminHome)
    } else if rest[0] == "user"@ {
        admin_user_routes(rest.skip(1), method)
    } else if rest[0] == "character"@ {
        admin_character_routes(rest.skip(1), method)
    } else {
        Err(AppError::PathNotFound)
    }
}

/// The wiki routes; `r` is the routing result. A page name is carried as
/// text, so this is stated of the result rather than computed.
pub open spec fn wiki_routes(rest: Seq<Seq<char>>, method: Method, r: Result<Target, AppError>) -> bool {
    if rest.len() == 0 {
        r == Ok::<Target, AppError>(Target::AddSlash)
    } else if rest[0] == ""@ {
        r == single_page(rest.skip(1), method, Method::Get, Target::WikiIndex)
    } else if rest.skip(1).len() == 0 {
        r == Ok::<Target, AppError>(Target::AddSlash)
    } else if rest[1] != ""@ {
        r == Err::<Target, AppError>(AppError::PathNotFound)
    } else if method != Method::Get {
        r == Err::<Target, AppError>(AppError::MethodNotFound)
    } else {
        r matches Ok(Target::WikiPage(page)) && page@ == rest[0]
    }
}

/// The whole routing table. `rest` is the path after its leading `/`, split
/// at each `/`; `r` is the routing result.
pub open spec fn routes(
    rest: Seq<Seq<char>>,
    method: Method,
    session: Option<SessionData>,
    r: Result<Target, AppError>,
) -> bool {
    if rest.len() == 0 {
        r == Ok::<Target, AppError>(Target::AddSlash)
    } else if rest[0] == ""@ {
        r == single_page(rest.skip(1), method, Method::Get, Target::Home)
    } else if rest[0] == "post-login"@ {
        r == single_page(rest.skip(1), method, Method::Get, Target::FinishLogin)
    } else if rest[0] == "characters"@ {
        r == characters_routes(rest.skip(1), method)
    } else if rest[0] == "character"@ {
        match session {
            None => r == Ok::<Target, AppError>(Target::StartLogin),
            Some(_) => r == character_routes(rest.skip(1), method),
        }
    } else if rest[0] == "admin"@ {
        match session {
            None => r == Ok::<Target, AppError>(Target::StartLogin),
            Some(s) => r == admin_routes(rest.skip(1), method, s),
        }
    } else if rest[0] == "wiki"@ {
        wiki_routes(rest.skip(1), method, r)
    } else {
        match asset_named(rest[0]) {
            Some(a) => r == single_page(rest.skip(1), method, Method::Get, Target::Asset(a)),
            None => r == Err::<Target, AppError>(AppError::PathNotFound),
        }
    }
}

/// Answers that browsers may cache: the wiki and the root assets.
pub open spec fn cacheable_route(rest: Seq<Seq<char>>) -> bool {
    &&& rest.len() > 0
    &&& rest[0] != ""@ && rest[0] != "post-login"@ && rest[0] != "characters"@
    &&& rest[0] != "character"@ && rest[0] != "admin"@
    &&& (rest[0] == "wiki"@ || asset_named(rest[0]) is Some)
}

/// The fixed path words of the routing table are distinct.
pub proof fn reveal_route_words()
    ensures
        ""@ != "post-login"@,
        ""@ != "characters"@,
        ""@ != "character"@,
        ""@ != "admin"@,
        ""@ != "wiki"@,
        ""@ != "user"@,
        ""@ != "edit"@,
        "post-login"@ != "characters"@,
        "post-login"@ != "character"@,
        "post-login"@ != "admin"@,
        "post-login"@ != "wiki"@,
        "post-login"@ != "user"@,
        "post-login"@ != "edit"@,
        "characters"@ != "character"@,
        "characters"@ != "admin"@,
        "characters"@ != "wiki"@,
        "characters"@ != "user"@,
        "characters"@ != "edit"@,
        "character"@ != "admin"@,
        "character"@ != "wiki"@,
        "character"@ != "user"@,
        "character"@ != "edit"@,
        "admin"@ != "wiki"@,
        "admin"@ != "user"@,
        "admin"@ != "edit"@,
        "wiki"@ != "user"@,
        "wiki"@ != "edit"@,
        "user"@ != "edit"@,
{
    reveal_strlit("");
    reveal_strlit("post-login");
    reveal_strlit("characters");
    reveal_strlit("character");
    reveal_strlit("admin");
    reveal_strlit("wiki");
    reveal_strlit("user");
    reveal_strlit("edit");
    assert("post-login"@[0] != "characters"@[0]);
    assert("wiki"@[0] != "user"@[0]);
    assert("wiki"@[0] != "edit"@[0]);
    assert("user"@[0] != "edit"@[0]);
    assert(""@.len() == 0);
    assert("post-login"@.len() == 10);
    assert("characters"@.len() == 10);
    assert("character"@.len() == 9);
    assert("admin"@.len() == 5);
    assert("wiki"@.len() == 4);
    assert("user"@.len() == 4);
    assert("edit"@.len() == 4);
}

/// The login callback sets its own cookies, so the cookie changes from
/// authentication are dropped there.
pub open spec fn forwards_auth_cookies(rest: Seq<Seq<char>>) -> bool {
    !(rest.len() > 0 && rest[0] == "post-login"@)
}

} // verus!

verus! {

pub open spec fn rest_at(segs: Seq<String>, pos: int) -> Seq<Seq<char>> {
    views(segs).skip(pos)
}

proof fn lemma_rest_at(segs: Seq<String>, pos: int)
    requires
        0 <= pos < segs.len(),
    ensures
        rest_at(segs, pos).len() == segs.len() - pos,
        rest_at(segs, pos)[0] == segs[pos]@,
        rest_at(segs, pos).skip(1) == rest_at(segs, pos + 1),
{
    assert(rest_at(segs, pos).skip(1) =~= rest_at(segs, pos + 1));
}

proof fn lemma_rest_end(segs: Seq<String>, pos: int)
    requires
        0 <= pos <= segs.len(),
    ensures
        rest_at(segs, pos).len() == segs.len() - pos,
{
}

fn seg_is(segs: &Vec<String>, pos: usize, lit: &str) -> (r: bool)
    requires
        pos < segs.len(),
    ensures
        r == (rest_at(segs@, pos as int)[0] == lit@),
{
    proof {
        lemma_rest_at(segs@, pos as int);
    }
    text_eq(segs[pos].as_str(), lit)
}

fn single_page_at(segs: &Vec<String>, pos: usize, method: Method, wanted: Method, t: Target) -> (r: Result<Target, AppError>)
    requires
        pos <= segs.len(),
    ensures
        r == single_page(rest_at(segs@, pos as int), method, wanted, t),
{
    proof {
        lemma_rest_end(segs@, pos as int);
    }
    if pos < segs.len() {
        Err(AppError::PathNotFound)
    } else if method != wanted {
        Err(AppError::MethodNotFound)
    } else {
        Ok(t)
    }
}

fn form_page_for(method: Method, get: Target, post: Target) -> (r: Result<Target, AppError>)
    ensures
        r == form_page(method, get, post),
{
    match method {
        Method::Get => Ok(get),
        Method::Post => Ok(post),
        Method::Other => Err(AppError::MethodNotFound),
    }
}

/// Routes below `/characters`.
pub fn characters_route(segs: &Vec<String>, pos: usize, method: Method) -> (r: Result<Target, AppError>)
    requires
        pos <= segs.len(),
    ensures
        r == characters_routes(rest_at(segs@, pos as int), method),
{
    proof {
        lemma_rest_end(segs@, pos as int);
    }
    if pos == segs.len() {
        return Ok(Target::AddSlash);
    }
    proof {
        lemma_rest_at(segs@, pos as int);
    }
    if seg_is(segs, pos, "") {
        single_page_at(segs, pos + 1, method, Method::Get, Target::PublicCharacters)
    } else {
        Err(AppError::PathNotFound)
    }
}

fn own_character_page_at(segs: &Vec<String>, pos: usize, method: Method) -> (r: Result<CharacterPage, AppError>)
    requires
        pos <= segs.len(),
    ensures
        r == own_character_page(rest_at(segs@, pos as int), method),
{
    proof {
        lemma_rest_end(segs@, pos as int);
    }
    if pos == segs.len() {
        return Ok(CharacterPage::AddSlash);
    }
    proof {
        lemma_rest_at(segs@, pos as int);
        lemma_rest_end(segs@, pos + 1);
    }
    if seg_is(segs, pos, "") {
        if pos + 1 < segs.len() {
            Err(AppError::PathNotFound)
        } else {
            match method {
                Method::Get => Ok(CharacterPage::Sheet),
                Method::Post => Ok(CharacterPage::SaveDraft),
                Method::Other => Err(AppError::MethodNotFound),
            }
        }
    } else {
        Err(AppError::PathNotFound)
    }
}

/// Routes below `/character` (for a signed-in user).
pub fn character_route(segs: &Vec<String>, pos: usize, method: Method) -> (r: Result<Target, AppError>)
    requires
        pos <= segs.len(),
    ensures
        r == character_routes(rest_at(segs@, pos as int), method),
{
    proof {
        lemma_rest_end(segs@, pos as int);
    }
    if pos == segs.len() {
        return Ok(Target::AddSlash);
    }
    proof {
        lemma_rest_at(segs@, pos as int);
        lemma_rest_end(segs@, pos + 1);
    }
    if seg_is(segs, pos, "") {
        if pos + 1 < segs.len() {
            Err(AppError::PathNotFound)
        } else {
            form_page_for(method, Target::MyCharacters, Target::CreateCharacter)
        }
    } else {
        match parse_i64(segs[pos].as_str()) {
            None => Err(AppError::BadPathId),
            Some(id) => Ok(Target::OwnCharacter(id, own_character_page_at(segs, pos + 1, method))),
        }
    }
}

/// Routes below `/admin/user`.
pub fn admin_user_route(segs: &Vec<String>, pos: usize, method: Method) -> (r: Result<Target, AppError>)
    requires
        pos <= segs.len(),
    ensures
        r == admin_user_routes(rest_at(segs@, pos as int), method),
{
    proof {
        lemma_rest_end(segs@, pos as int);
    }
    if pos == segs.len() {
        return Ok(Target::AddSlash);
    }
    proof {
        lemma_rest_at(segs@, pos as int);
        lemma_rest_end(segs@, pos + 1);
    }
    if seg_is(segs, pos, "") {
        single_page_at(segs, pos + 1, method, Method::Get, Target::AdminUsers)
    } else {
        match parse_i64(segs[pos].as_str()) {
            None => Err(AppError::BadPathId),
            Some(id) => {
                if pos + 1 == segs.len() {
                    Ok(Target::AddSlash)
                } else {
                    proof {
                        lemma_rest_at(segs@, pos + 1);
                    }
                    if seg_is(segs, pos + 1, "") {
                        form_page_for(method, Target::AdminUser(id), Target::AdminUpdateUser(id))
                    } else {
                        Err(AppError::PathNotFound)
                    }
                }
            },
        }
    }
}

/// Routes below `/admin/character/{id}/edit`.
pub fn admin_character_edit_route(segs: &Vec<String>, pos: usize, method: Method, id: i64) -> (r: Result<Target, AppError>)
    requires
        pos <= segs.len(),
    ensures
        r == admin_character_edit_routes(rest_at(segs@, pos as int), method, id),
{
    proof {
        lemma_rest_end(segs@, pos as int);
    }
    if pos == segs.len() {
        return Ok(Target::AddSlash);
    }
    proof {
        lemma_rest_at(segs@, pos as int);
    }
    if seg_is(segs, pos, "") {
        form_page_for(method, Target::AdminEditCharacter(id), Target::AdminSaveCharacter(id))
    } else {
        Err(AppError::PathNotFound)
    }
}

/// Routes below `/admin/character`.
pub fn admin_character_route(segs: &Vec<String>, pos: usize, method: Method) -> (r: Result<Target, AppError>)
    requires
        pos <= segs.len(),
    ensures
        r == admin_character_routes(rest_at(segs@, pos as int), method),
{
    proof {
        lemma_rest_end(segs@, pos as int);
    }
    if pos == segs.len() {
        return Ok(Target::AddSlash);
    }
    proof {
        lemma_rest_at(segs@, pos as int);
        lemma_rest_end(segs@, pos + 1);
    }
    if seg_is(segs, pos, "") {
        form_page_for(method, Target::AdminCharacters, Target::AdminCreateCharacter)
    } else {
        match parse_i64(segs[pos].as_str()) {
            None => Err(AppError::BadPathId),
            Some(id) => {
                if pos + 1 == segs.len() {
                    Ok(Target::AddSlash)
                } else {
                    proof {
                        lemma_rest_at(segs@, pos + 1);
                    }
                    if seg_is(segs, pos + 1, "") {
                        form_page_for(method, Target::AdminCharacter(id), Target::AdminCharacterAction(id))
                    } else if seg_is(segs, pos + 1, "edit") {
                        admin_character_edit_route(segs, pos + 2, method, id)
                    } else {
                        Err(AppError::PathNotFound)
                    }
                }
            },
        }
    }
}

/// Routes below `/admin`: storytellers only.
pub fn admin_route(segs: &Vec<String>, pos: usize, method: Method, session: SessionData) -> (r: Result<Target, AppError>)
    requires
        pos <= segs.len(),
    ensures
        r == admin_routes(rest_at(segs@, pos as int), method, session),
{
    if !session.role.is_storyteller() {
        return Err(AppError::Forbidden);
    }
    proof {
        lemma_rest_end(segs@, pos as int);
    }
    if pos == segs.len() {
        return Ok(Target::AddSlash);
    }
    proof {
        lemma_rest_at(segs@, pos as int);
    }
    if seg_is(segs, pos, "") {
        single_page_at(segs, pos + 1, method, Method::Get, Target::AdminHome)
    } else if seg_is(segs, pos, "user") {
        admin_user_route(segs, pos + 1, method)
    } else if seg_is(segs, pos, "character") {
        admin_character_route(segs, pos + 1, method)
    } else {
        Err(AppError::PathNotFound)
    }
}

/// Routes below `/wiki`.
pub fn wiki_route(segs: &Vec<String>, pos: usize, method: Method) -> (r: Result<Target, AppError>)
    requires
        pos <= segs.len(),
    ensures
        wiki_routes(rest_at(segs@, pos as int), method, r),
{
    proof {
        lemma_rest_end(segs@, pos as int);
    }
    if pos == segs.len() {
        return Ok(Target::AddSlash);
    }
    proof {
        lemma_rest_at(segs@, pos as int);
        lemma_rest_end(segs@, pos + 1);
    }
    if seg_is(segs, pos, "") {
        return single_page_at(segs, pos + 1, method, Method::Get, Target::WikiIndex);
    }
    if pos + 1 == segs.len() {
        return Ok(Target::AddSlash);
    }
    proof {
        lemma_rest_at(segs@, pos + 1);
        assert(rest_at(segs@, pos as int)[1] == rest_at(segs@, pos + 1)[0]);
    }
    if !seg_is(segs, pos + 1, "") {
        Err(AppError::PathNotFound)
    } else if method != Method::Get {
        Err(AppError::MethodNotFound)
    } else {
        Ok(Target::WikiPage(segs[pos].clone()))
    }
}

} // verus!

verus! {

/// The pieces of a request path between its `/` characters.
pub open spec fn path_pieces(path: Seq<char>) -> Seq<Seq<char>> {
    split_on(path, '/')
}

/// Splits a request path at its `/` characters. The path must begin with
/// `/`: text before it is refused and carried in the error.
pub fn route_segments(path: &str) -> (r: Result<Vec<String>, AppError>)
    ensures
        path_pieces(path@)[0].len() == 0 ==> (r matches Ok(v) && views(v@) == path_pieces(path@)),
        path_pieces(path@)[0].len() != 0 ==> (r matches Err(AppError::PathDataBeforeRoot(first))
            && first@ == path_pieces(path@)[0]),
{
    let pieces = split_text(path, '/');
    proof {
        crate::text::lemma_split_on_nonempty(path@, '/');
        assert(views(pieces@)[0] == pieces@[0]@);
    }
    if pieces[0].unicode_len() != 0 {
        return Err(AppError::PathDataBeforeRoot(pieces[0].clone()));
    }
    Ok(pieces)
}

/// The location a path without its trailing slash is redirected to.
pub fn slash_redirect_location(path: &str) -> (r: String)
    ensures
        r@ == path@ + "/"@,
{
    let mut r = path.to_owned();
    r.append("/");
    r
}

/// Decides how to answer a request, given the pieces of its path (as
/// `route_segments` returns them), its method and who is signed in.
pub fn route(segs: &Vec<String>, method: Method, session: Option<SessionData>) -> (r: RoutePlan)
    requires
        segs.len() >= 1,
    ensures
        routes(rest_at(segs@, 1), method, session, r.target),
        r.cacheable == cacheable_route(rest_at(segs@, 1)),
        r.forward_auth_cookies == forwards_auth_cookies(rest_at(segs@, 1)),
{
    proof {
        lemma_rest_end(segs@, 1);
    }
    if segs.len() == 1 {
        return RoutePlan { target: Ok(Target::AddSlash), forward_auth_cookies: true, cacheable: false };
    }
    proof {
        lemma_rest_at(segs@, 1);
        reveal_route_words();
    }
    if seg_is(segs, 1, "") {
        let target = single_page_at(segs, 2, method, Method::Get, Target::Home);
        RoutePlan { target, forward_auth_cookies: true, cacheable: false }
    } else if seg_is(segs, 1, "post-login") {
        let target = single_page_at(segs, 2, method, Method::Get, Target::FinishLogin);
        RoutePlan { target, forward_auth_cookies: false, cacheable: false }
    } else if seg_is(segs, 1, "characters") {
        let target = characters_route(segs, 2, method);
        RoutePlan { target, forward_auth_cookies: true, cacheable: false }
    } else if seg_is(segs, 1, "character") {
        let target = match session {
            None => Ok(Target::StartLogin),
            Some(_) => character_route(segs, 2, method),
        };
        RoutePlan { target, forward_auth_cookies: true, cacheable: false }
    } else if seg_is(segs, 1, "admin") {
        let target = match session {
            None => Ok(Target::StartLogin),
            Some(s) => admin_route(segs, 2, method, s),
        };
        RoutePlan { target, forward_auth_cookies: true, cacheable: false }
    } else if seg_is(segs, 1, "wiki") {
        let target = wiki_route(segs, 2, method);
        RoutePlan { target, forward_auth_cookies: true, cacheable: true }
    } else {
        match find_root_asset(segs[1].as_str()) {
            Some(a) => {
                let target = single_page_at(segs, 2, method, Method::Get, Target::Asset(a));
                RoutePlan { target, forward_auth_cookies: true, cacheable: true }
            },
            None => RoutePlan { target: Err(AppError::PathNotFound), forward_auth_cookies: true, cacheable: false },
        }
    }
}

// ----- laws of the routing table -----

/// The storyteller pages.
pub open spec fn is_storyteller_page(t: Target) -> bool {
    match t {
        Target::AdminHome | Target::AdminUsers | Target::AdminUser(_) | Target::AdminUpdateUser(_)
        | Target::AdminCharacters | Target::AdminCreateCharacter | Target::AdminCharacter(_)
        | Target::AdminCharacterAction(_) | Target::AdminEditCharacter(_)
        | Target::AdminSaveCharacter(_) => true,
        _ => false,
    }
}

/// The pages of a signed-in user: their own characters and the storyteller pages.
pub open spec fn is_private_page(t: Target) -> bool {
    match t {
        Target::MyCharacters | Target::CreateCharacter | Target::OwnCharacter(_, _) => true,
        _ => is_storyteller_page(t),
    }
}

/// A storyteller page is only ever routed to for a signed-in storyteller.
pub proof fn lemma_storyteller_pages_need_storyteller(
    rest: Seq<Seq<char>>,
    method: Method,
    session: Option<SessionData>,
    r: Result<Target, AppError>,
)
    requires
        routes(rest, method, session, r),
        r matches Ok(t) && is_storyteller_page(t),
    ensures
        session matches Some(s) && s.role == Role::Storyteller,
{
}

/// A private page is only ever routed to for a signed-in user; without a
/// session, the character and storyteller sections start the login flow.
pub proof fn lemma_private_pages_need_login(
    rest: Seq<Seq<char>>,
    method: Method,
    session: Option<SessionData>,
    r: Result<Target, AppError>,
)
    requires
        routes(rest, method, session, r),
    ensures
        r matches Ok(t) && is_private_page(t) ==> session is Some,
        session is None && rest.len() > 0 && (rest[0] == "character"@ || rest[0] == "admin"@)
            ==> r == Ok::<Target, AppError>(Target::StartLogin),
{
    reveal_route_words();
}

} // verus!

verus! {

// ----- where the browser is sent after a post -----

/// The path of a page named by an id: `head` (which ends in `/`), the
/// id's decimal text, then `/`.
pub open spec fn id_path(head: Seq<char>, id: i64) -> Seq<char> {
    head + crate::text::int_text(id as int) + "/"@
}

fn location_with_id(prefix: &str, id: i64, suffix: &str) -> (r: String)
    ensures
        r@ == prefix@ + crate::text::int_text(id as int) + suffix@,
{
    let mut r = String::new();
    r.append(prefix);
    crate::text::push_int_text(&mut r, id);
    r.append(suffix);
    r
}

/// The storyteller's page of a character.
pub fn admin_character_location(id: i64) -> (r: String)
    ensures
        r@ == id_path("/admin/character/"@, id),
{
    location_with_id("/admin/character/", id, "/")
}

/// The storyteller page of a character under /admin/characters/.
pub fn admin_characters_location(id: i64) -> (r: String)
    ensures
        r@ == "/admin/characters/"@ + crate::text::int_text(id as int) + "/"@,
{
    location_with_id("/admin/characters/", id, "/")
}

/// The storyteller's page of a user.
pub fn admin_user_location(id: i64) -> (r: String)
    ensures
        r@ == id_path("/admin/user/"@, id),
{
    location_with_id("/admin/user/", id, "/")
}

/// A player's character sheet, with the notice that spent experience was saved.
pub fn saved_character_location(id: i64) -> (r: String)
    ensures
        r@ == id_path("/character/"@, id) + "?saved=1"@,
{
    let mut r = location_with_id("/character/", id, "/");
    r.append("?saved=1");
    r
}

} // verus!

verus! {

/// The routing result asks the browser to add a trailing slash.
pub open spec fn asks_for_slash(r: Result<Target, AppError>) -> bool {
    r == Ok::<Target, AppError>(Target::AddSlash)
        || r matches Ok(Target::OwnCharacter(_, Ok(CharacterPage::AddSlash)))
}

/// Only a path that does not end in `/` is redirected to get one: a path
/// that ends in `/` is never redirected.
pub proof fn lemma_slash_redirect_only_without_slash(
    rest: Seq<Seq<char>>,
    method: Method,
    session: Option<SessionData>,
    r: Result<Target, AppError>,
)
    requires
        routes(rest, method, session, r),
        asks_for_slash(r),
    ensures
        rest.len() == 0 || rest.last() != ""@,
{
    reveal_route_words();
    if rest.len() > 0 {
        let t1 = rest.skip(1);
        if t1.len() > 0 {
            assert(t1[0] == rest[1]);
            let t2 = t1.skip(1);
            if t2.len() > 0 {
                assert(t2[0] == rest[2]);
                let t3 = t2.skip(1);
                if t3.len() > 0 {
                    assert(t3[0] == rest[3]);
                    let t4 = t3.skip(1);
                    if t4.len() > 0 {
                        assert(t4[0] == rest[4]);
                    }
                }
            }
        }
    }
}

} // verus!

verus! {

// ----- the redirects lead back to the page of what was saved -----

/// A path that ends in `/`, extended by a word without `/` and a `/`,
/// splits into its own pieces with the word in place of the empty last one,
/// then an empty piece.
proof fn lemma_path_word(a: Seq<char>, w: Seq<char>)
    requires
        a.len() == 0 || a.last() == '/',
        forall|i: int| 0 <= i < w.len() ==> w[i] != '/',
    ensures
        a.len() > 0 ==> path_pieces((a + w).push('/')) == path_pieces(a).drop_last().push(w).push(Seq::<char>::empty()),
        a.len() == 0 ==> path_pieces((a + w).push('/')) == seq![w, Seq::<char>::empty()],
{
    crate::text::lemma_split_on_nonempty(a, '/');
    crate::text::lemma_split_on_append(a, w, '/');
    crate::text::lemma_split_on_push_sep(a + w, '/');
    if a.len() > 0 {
        let b = a.drop_last();
        assert(b.push('/') =~= a);
        crate::text::lemma_split_on_push_sep(b, '/');
        let p = split_on(a, '/');
        assert(p.last() + w =~= w);
        assert(p.update(p.len() - 1, p.last() + w) =~= p.drop_last().push(w));
    } else {
        assert(split_on(a, '/') =~= seq![Seq::<char>::empty()]);
        assert(Seq::<char>::empty() + w =~= w);
        assert(seq![Seq::<char>::empty()].update(0, Seq::<char>::empty() + w) =~= seq![w]);
    }
}

proof fn lemma_id_text_is_a_word(id: i64)
    ensures
        forall|i: int| 0 <= i < crate::text::int_text(id as int).len() ==> crate::text::int_text(id as int)[i] != '/',
        crate::text::int_text(id as int) != ""@,
        i64_parse(crate::text::int_text(id as int)) == Some(id),
{
    crate::text::lemma_int_text_chars(id as int);
    crate::text::lemma_parse_int_text(id);
    reveal_strlit("");
    let t = crate::text::int_text(id as int);
    assert forall|i: int| 0 <= i < t.len() implies t[i] != '/' by {
        assert(t[i] == '-' || crate::text::is_ascii_digit(t[i]));
    }
    assert(""@.len() == 0);
}

proof fn lemma_id_path_pieces(head: Seq<char>, id: i64)
    requires
        head.len() > 0,
        head.last() == '/',
    ensures
        path_pieces(id_path(head, id)) == path_pieces(head).drop_last().push(crate::text::int_text(id as int)).push(
            Seq::<char>::empty(),
        ),
{
    reveal_strlit("/");
    lemma_id_text_is_a_word(id);
    let t = crate::text::int_text(id as int);
    assert(id_path(head, id) =~= (head + t).push('/'));
    lemma_path_word(head, t);
}

/// The pieces of the paths the redirects start with.
proof fn lemma_head_pieces()
    ensures
        path_pieces("/character/"@) == seq![Seq::<char>::empty(), "character"@, Seq::<char>::empty()],
        path_pieces("/admin/character/"@) == seq![Seq::<char>::empty(), "admin"@, "character"@, Seq::<char>::empty()],
        path_pieces("/admin/user/"@) == seq![Seq::<char>::empty(), "admin"@, "user"@, Seq::<char>::empty()],
{
    reveal_strlit("/character/");
    reveal_strlit("/admin/character/");
    reveal_strlit("/admin/user/");
    reveal_strlit("character");
    reveal_strlit("admin");
    reveal_strlit("user");
    let e = Seq::<char>::empty();
    let slash = e.push('/');
    lemma_path_word(e, e);
    assert((e + e).push('/') =~= slash);
    assert(path_pieces(slash) == seq![e, e]);
    let c = "character"@;
    let a = "admin"@;
    let u = "user"@;
    assert forall|i: int| 0 <= i < c.len() implies c[i] != '/' by {}
    assert forall|i: int| 0 <= i < a.len() implies a[i] != '/' by {}
    assert forall|i: int| 0 <= i < u.len() implies u[i] != '/' by {}
    lemma_path_word(slash, c);
    assert((slash + c).push('/') =~= "/character/"@);
    assert(seq![e, e].drop_last().push(c).push(e) =~= seq![e, c, e]);
    lemma_path_word(slash, a);
    let admin_head = (slash + a).push('/');
    assert(seq![e, e].drop_last().push(a).push(e) =~= seq![e, a, e]);
    lemma_path_word(admin_head, c);
    assert((admin_head + c).push('/') =~= "/admin/character/"@);
    assert(seq![e, a, e].drop_last().push(c).push(e) =~= seq![e, a, c, e]);
    lemma_path_word(admin_head, u);
    assert((admin_head + u).push('/') =~= "/admin/user/"@);
    assert(seq![e, a, e].drop_last().push(u).push(e) =~= seq![e, a, u, e]);
}

/// The path a saved character sheet redirects to (before its query) is
/// routed, for a signed-in user, to the sheet of that character.
pub proof fn lemma_saved_location_leads_to_sheet(id: i64, session: SessionData)
    ensures
        path_pieces(id_path("/character/"@, id))[0].len() == 0,
        forall|r: Result<Target, AppError>|
            #[trigger] routes(path_pieces(id_path("/character/"@, id)).skip(1), Method::Get, Some(session), r)
                <==> r == Ok::<Target, AppError>(Target::OwnCharacter(id, Ok(CharacterPage::Sheet))),
{
    reveal_strlit("/character/");
    lemma_head_pieces();
    lemma_id_path_pieces("/character/"@, id);
    lemma_id_text_is_a_word(id);
    reveal_route_words();
    let e = Seq::<char>::empty();
    let t = crate::text::int_text(id as int);
    let rest = path_pieces(id_path("/character/"@, id)).skip(1);
    assert(rest =~= seq!["character"@, t, e]);
    assert(rest.skip(1) =~= seq![t, e]);
    assert(rest.skip(1).skip(1) =~= seq![e]);
    assert(rest.skip(1).skip(1).skip(1) =~= Seq::<Seq<char>>::empty());
    reveal_strlit("");
    assert(""@ =~= e);
    assert(character_routes(rest.skip(1), Method::Get) == Ok::<Target, AppError>(
        Target::OwnCharacter(id, Ok(CharacterPage::Sheet)),
    ));
}

/// The path a storyteller's change to a character redirects to is routed,
/// for a storyteller, to that character's storyteller page.
pub proof fn lemma_admin_character_location_leads_back(id: i64, session: SessionData)
    requires
        session.role == Role::Storyteller,
    ensures
        path_pieces(id_path("/admin/character/"@, id))[0].len() == 0,
        forall|r: Result<Target, AppError>|
            #[trigger] routes(path_pieces(id_path("/admin/character/"@, id)).skip(1), Method::Get, Some(session), r)
                <==> r == Ok::<Target, AppError>(Target::AdminCharacter(id)),
{
    reveal_strlit("/admin/character/");
    lemma_head_pieces();
    lemma_id_path_pieces("/admin/character/"@, id);
    lemma_id_text_is_a_word(id);
    reveal_route_words();
    let e = Seq::<char>::empty();
    let t = crate::text::int_text(id as int);
    let rest = path_pieces(id_path("/admin/character/"@, id)).skip(1);
    assert(rest =~= seq!["admin"@, "character"@, t, e]);
    assert(rest.skip(1) =~= seq!["character"@, t, e]);
    assert(rest.skip(1).skip(1) =~= seq![t, e]);
    assert(rest.skip(1).skip(1).skip(1) =~= seq![e]);
    reveal_strlit("");
    assert(""@ =~= e);
    assert(rest[0] == "admin"@);
}

/// The path a storyteller's change to a user redirects to is routed, for a
/// storyteller, to that user's page.
pub proof fn lemma_admin_user_location_leads_back(id: i64, session: SessionData)
    requires
        session.role == Role::Storyteller,
    ensures
        path_pieces(id_path("/admin/user/"@, id))[0].len() == 0,
        forall|r: Result<Target, AppError>|
            #[trigger] routes(path_pieces(id_path("/admin/user/"@, id)).skip(1), Method::Get, Some(session), r)
                <==> r == Ok::<Target, AppError>(Target::AdminUser(id)),
{
    reveal_strlit("/admin/user/");
    lemma_head_pieces();
    lemma_id_path_pieces("/admin/user/"@, id);
    lemma_id_text_is_a_word(id);
    reveal_route_words();
    let e = Seq::<char>::empty();
    let t = crate::text::int_text(id as int);
    let rest = path_pieces(id_path("/admin/user/"@, id)).skip(1);
    assert(rest =~= seq!["admin"@, "user"@, t, e]);
    assert(rest.skip(1) =~= seq!["user"@, t, e]);
    assert(rest.skip(1).skip(1) =~= seq![t, e]);
    assert(rest.skip(1).skip(1).skip(1) =~= seq![e]);
    reveal_strlit("");
    assert(""@ =~= e);
    assert(rest[0] == "admin"@);
}

} // verus!

verus! {

// ----- a character of one's own: found first, then the page -----

/// The answer for a character of one's own: a character that was not found
/// among the user's characters (unknown, or another user's) is "not found"
/// whatever the method and the rest of the path; a found one gets the page
/// the routing chose, or the routing's refusal.
pub open spec fn own_character_answer_of<T>(
    lookup: Option<T>,
    page: Result<CharacterPage, AppError>,
) -> Result<(T, CharacterPage), AppError> {
    match lookup {
        None => Err(AppError::PathNotFound),
        Some(c) => match page {
            Ok(p) => Ok((c, p)),
            Err(e) => Err(e),
        },
    }
}

/// Decides the answer for a character of one's own from the lookup of the
/// character among the user's characters and the page the routing chose.
pub fn own_character_answer<T>(lookup: Option<T>, page: Result<CharacterPage, AppError>) -> (r: Result<
    (T, CharacterPage),
    AppError,
>)
    ensures
        r == own_character_answer_of(lookup, page),
{
    match lookup {
        None => Err(AppError::PathNotFound),
        Some(c) => match page {
            Ok(p) => Ok((c, p)),
            Err(e) => Err(e),
        },
    }
}

/// A character that is not among the signed-in user's characters answers
/// "not found" for every method and every rest of the path below it: no
/// sheet is shown and no experience is saved.
pub proof fn lemma_unknown_character_is_not_found<T>(
    rest: Seq<Seq<char>>,
    method: Method,
    session: Option<SessionData>,
    id: i64,
    page: Result<CharacterPage, AppError>,
)
    requires
        routes(rest, method, session, Ok(Target::OwnCharacter(id, page))),
    ensures
        own_character_answer_of(None::<T>, page) == Err::<(T, CharacterPage), AppError>(AppError::PathNotFound),
        session is Some,
{
    reveal_route_words();
}

} // verus!

verus! {

// ----- the routing table, page by page -----

/// The answer a page gives to each method: the page for GET, the form's
/// submission for POST, and "method not allowed" for any other.
pub open spec fn by_method(method: Method, get: Target, post: Target) -> Result<Target, AppError> {
    match method {
        Method::Get => Ok(get),
        Method::Post => Ok(post),
        Method::Other => Err(AppError::MethodNotFound),
    }
}

/// The answer of a page that only shows itself: the page for GET, "method
/// not allowed" for any other method.
pub open spec fn get_only(method: Method, page: Target) -> Result<Target, AppError> {
    if method == Method::Get {
        Ok(page)
    } else {
        Err(AppError::MethodNotFound)
    }
}

/// For a storyteller, `/admin/character/` lists all characters (GET) and
/// creates one (POST), whatever follows it in the path.
pub proof fn lemma_admin_character_list_page(
    tail: Seq<Seq<char>>,
    method: Method,
    s: SessionData,
    r: Result<Target, AppError>,
)
    requires
        s.role == Role::Storyteller,
        routes(seq!["admin"@, "character"@, ""@] + tail, method, Some(s), r),
    ensures
        r == by_method(method, Target::AdminCharacters, Target::AdminCreateCharacter),
{
    reveal_route_words();
    let rest = seq!["admin"@, "character"@, ""@] + tail;
    assert(rest[0] == "admin"@);
    assert(rest.skip(1)[0] == "character"@);
    assert(rest.skip(1).skip(1)[0] == ""@);
}

/// For a storyteller, `/admin/` is the storyteller start page (GET only).
pub proof fn lemma_admin_home_page(method: Method, s: SessionData, r: Result<Target, AppError>)
    requires
        s.role == Role::Storyteller,
        routes(seq!["admin"@, ""@], method, Some(s), r),
    ensures
        r == get_only(method, Target::AdminHome),
{
    reveal_route_words();
    let rest = seq!["admin"@, ""@];
    assert(rest.skip(1) =~= seq![""@]);
    assert(rest.skip(1).skip(1) =~= Seq::<Seq<char>>::empty());
}

/// For a storyteller, `/admin/user/` lists the users (GET only).
pub proof fn lemma_admin_user_list_page(method: Method, s: SessionData, r: Result<Target, AppError>)
    requires
        s.role == Role::Storyteller,
        routes(seq!["admin"@, "user"@, ""@], method, Some(s), r),
    ensures
        r == get_only(method, Target::AdminUsers),
{
    reveal_route_words();
    let rest = seq!["admin"@, "user"@, ""@];
    assert(rest.skip(1) =~= seq!["user"@, ""@]);
    assert(rest.skip(1).skip(1) =~= seq![""@]);
    assert(rest.skip(1).skip(1).skip(1) =~= Seq::<Seq<char>>::empty());
}

/// For a storyteller, `/admin/user/{id}/` shows the user with that id (GET)
/// and updates it (POST), whatever follows it in the path.
pub proof fn lemma_admin_user_page(
    id: i64,
    tail: Seq<Seq<char>>,
    method: Method,
    s: SessionData,
    r: Result<Target, AppError>,
)
    requires
        s.role == Role::Storyteller,
        routes(seq!["admin"@, "user"@, int_text(id as int), ""@] + tail, method, Some(s), r),
    ensures
        r == by_method(method, Target::AdminUser(id), Target::AdminUpdateUser(id)),
{
    reveal_route_words();
    lemma_id_text_is_a_word(id);
    let rest = seq!["admin"@, "user"@, int_text(id as int), ""@] + tail;
    assert(rest[0] == "admin"@);
    assert(rest.skip(1)[0] == "user"@);
    assert(rest.skip(1).skip(1)[0] == int_text(id as int));
    assert(rest.skip(1).skip(1).skip(1)[0] == ""@);
}

/// For a storyteller, `/admin/character/{id}/` shows the character with that
/// id (GET) and acts on it (POST), whatever follows it in the path.
pub proof fn lemma_admin_character_page(
    id: i64,
    tail: Seq<Seq<char>>,
    method: Method,
    s: SessionData,
    r: Result<Target, AppError>,
)
    requires
        s.role == Role::Storyteller,
        routes(seq!["admin"@, "character"@, int_text(id as int), ""@] + tail, method, Some(s), r),
    ensures
        r == by_method(method, Target::AdminCharacter(id), Target::AdminCharacterAction(id)),
{
    reveal_route_words();
    lemma_id_text_is_a_word(id);
    let rest = seq!["admin"@, "character"@, int_text(id as int), ""@] + tail;
    assert(rest[0] == "admin"@);
    assert(rest.skip(1)[0] == "character"@);
    assert(rest.skip(1).skip(1)[0] == int_text(id as int));
    assert(rest.skip(1).skip(1).skip(1)[0] == ""@);
}

/// For a storyteller, `/admin/character/{id}/edit/` is the edit form of the
/// character with that id (GET) and saves it (POST), whatever follows.
pub proof fn lemma_admin_edit_character_page(
    id: i64,
    tail: Seq<Seq<char>>,
    method: Method,
    s: SessionData,
    r: Result<Target, AppError>,
)
    requires
        s.role == Role::Storyteller,
        routes(seq!["admin"@, "character"@, int_text(id as int), "edit"@, ""@] + tail, method, Some(s), r),
    ensures
        r == by_method(method, Target::AdminEditCharacter(id), Target::AdminSaveCharacter(id)),
{
    reveal_route_words();
    lemma_id_text_is_a_word(id);
    let rest = seq!["admin"@, "character"@, int_text(id as int), "edit"@, ""@] + tail;
    assert(rest[0] == "admin"@);
    assert(rest.skip(1)[0] == "character"@);
    assert(rest.skip(1).skip(1)[0] == int_text(id as int));
    assert(rest.skip(1).skip(1).skip(1)[0] == "edit"@);
    assert(rest.skip(1).skip(1).skip(1).skip(1)[0] == ""@);
}

/// For a signed-in user, `/character/` lists their characters (GET) and
/// creates one (POST).
pub proof fn lemma_my_characters_page(method: Method, s: SessionData, r: Result<Target, AppError>)
    requires
        routes(seq!["character"@, ""@], method, Some(s), r),
    ensures
        r == by_method(method, Target::MyCharacters, Target::CreateCharacter),
{
    reveal_route_words();
    let rest = seq!["character"@, ""@];
    assert(rest.skip(1) =~= seq![""@]);
    assert(rest.skip(1).skip(1) =~= Seq::<Seq<char>>::empty());
}

/// For a signed-in user, `/character/{id}/` is the sheet of that character
/// (GET) and saves experience spent on it (POST).
pub proof fn lemma_own_character_page(id: i64, method: Method, s: SessionData, r: Result<Target, AppError>)
    requires
        routes(seq!["character"@, int_text(id as int), ""@], method, Some(s), r),
    ensures
        r == Ok::<Target, AppError>(Target::OwnCharacter(id, match method {
            Method::Get => Ok(CharacterPage::Sheet),
            Method::Post => Ok(CharacterPage::SaveDraft),
            Method::Other => Err(AppError::MethodNotFound),
        })),
{
    reveal_route_words();
    lemma_id_text_is_a_word(id);
    let rest = seq!["character"@, int_text(id as int), ""@];
    assert(rest.skip(1) =~= seq![int_text(id as int), ""@]);
    assert(rest.skip(1).skip(1) =~= seq![""@]);
    assert(rest.skip(1).skip(1).skip(1) =~= Seq::<Seq<char>>::empty());
}

/// `/characters/` is the public list of characters (GET only), for anyone.
pub proof fn lemma_public_characters_page(method: Method, session: Option<SessionData>, r: Result<Target, AppError>)
    requires
        routes(seq!["characters"@, ""@], method, session, r),
    ensures
        r == get_only(method, Target::PublicCharacters),
{
    reveal_route_words();
    let rest = seq!["characters"@, ""@];
    assert(rest.skip(1) =~= seq![""@]);
    assert(rest.skip(1).skip(1) =~= Seq::<Seq<char>>::empty());
}

/// `/` is the front page (GET only), for anyone.
pub proof fn lemma_front_page(method: Method, session: Option<SessionData>, r: Result<Target, AppError>)
    requires
        routes(seq![""@], method, session, r),
    ensures
        r == get_only(method, Target::Home),
{
    reveal_route_words();
    assert(seq![""@].skip(1) =~= Seq::<Seq<char>>::empty());
}

/// `/post-login` (the identity provider's callback, without a trailing
/// slash) completes a login (GET only), for anyone.
pub proof fn lemma_login_callback_page(method: Method, session: Option<SessionData>, r: Result<Target, AppError>)
    requires
        routes(seq!["post-login"@], method, session, r),
    ensures
        r == get_only(method, Target::FinishLogin),
{
    reveal_route_words();
    assert(seq!["post-login"@].skip(1) =~= Seq::<Seq<char>>::empty());
}

/// `/wiki/` is the wiki's start page (GET only), for anyone.
pub proof fn lemma_wiki_index_page(method: Method, session: Option<SessionData>, r: Result<Target, AppError>)
    requires
        routes(seq!["wiki"@, ""@], method, session, r),
    ensures
        r == get_only(method, Target::WikiIndex),
{
    reveal_route_words();
    let rest = seq!["wiki"@, ""@];
    assert(rest.skip(1) =~= seq![""@]);
    assert(rest.skip(1).skip(1) =~= Seq::<Seq<char>>::empty());
}

} // verus!
