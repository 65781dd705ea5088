use vstd::prelude::*;

verus! {

/// The role of a signed-in user.
#[derive(Debug, Clone, Copy, PartialEq, Eq, Structural)]
pub enum Role {
    User,
    Storyteller,
}

impl Role {
    /// Whether the role grants access to the storyteller (admin) pages.
    pub fn is_storyteller(&self) -> (r: bool)
        ensures
            r <==> *self == Role::Storyteller,
    {
        match self {
            Role::Storyteller => true,
            Role::User => false,
        }
    }
}

/// The identity of the user behind a request.
#[derive(Debug, Clone, Copy, PartialEq, Eq, Structural)]
pub struct SessionData {
    pub user_id: i64,
    pub role: Role,
}

/// The life-cycle state of a character.
#[derive(Debug, Clone, Copy, PartialEq, Eq, Structural)]
pub enum CharacterStatus {
    Draft,
    Active,
    Inactive,
}

impl CharacterStatus {
    pub fn is_active(&self) -> (r: bool)
        ensures
            r <==> *self == CharacterStatus::Active,
    {
        match self {
            CharacterStatus::Active => true,
            _ => false,
        }
    }

    pub fn is_draft(&self) -> (r: bool)
        ensures
            r <==> *self == CharacterStatus::Draft,
    {
        match self {
            CharacterStatus::Draft => true,
            _ => false,
        }
    }

    pub fn is_inactive(&self) -> (r: bool)
        ensures
            r <==> *self == CharacterStatus::Inactive,
    {
        match self {
            CharacterStatus::Inactive => true,
            _ => false,
        }
    }
}

/// Whether the navigation shows the link to the storyteller pages: only for a
/// signed-in storyteller.
pub fn shows_admin_link(session: &Option<SessionData>) -> (r: bool)
    ensures
        r <==> (session matches Some(s) && s.role == Role::Storyteller),
{
    match session {
        Some(s) => s.role.is_storyteller(),
        None => false,
    }
}

// ---------------------------------------------------------------------------
// The words the database stores for roles and statuses
// ---------------------------------------------------------------------------

/// The word stored for a role.
pub open spec fn role_word(r: Role) -> Seq<char> {
    match r {
        Role::User => "user"@,
        Role::Storyteller => "storyteller"@,
    }
}

/// The word stored for a character status.
pub open spec fn status_word(s: CharacterStatus) -> Seq<char> {
    match s {
        CharacterStatus::Draft => "draft"@,
        CharacterStatus::Active => "active"@,
        CharacterStatus::Inactive => "inactive"@,
    }
}

proof fn reveal_stored_words()
    ensures
        "user"@ != "storyteller"@,
        "draft"@ != "active"@,
        "draft"@ != "inactive"@,
        "active"@ != "inactive"@,
{
    reveal_strlit("user");
    reveal_strlit("storyteller");
    reveal_strlit("draft");
    reveal_strlit("active");
    reveal_strlit("inactive");
    assert("user"@.len() != "storyteller"@.len());
    assert("draft"@[0] != "active"@[0]);
    assert("draft"@[0] != "inactive"@[0]);
    assert("active"@[0] != "inactive"@[0]);
}

impl Role {
    /// The word stored for the role.
    pub fn as_word(&self) -> (r: &'static str)
        ensures
            r@ == role_word(*self),
    {
        match self {
            Role::User => "user",
            Role::Storyteller => "storyteller",
        }
    }

    /// The role a stored word names, if any.
    pub fn from_word(word: &str) -> (r: Option<Role>)
        ensures
            r matches Some(role) ==> role_word(role) == word@,
            r is None ==> word@ != "user"@ && word@ != "storyteller"@,
    {
        proof {
            reveal_stored_words();
        }
        if crate::text::text_eq(word, "user") {
            Some(Role::User)
        } else if crate::text::text_eq(word, "storyteller") {
            Some(Role::Storyteller)
        } else {
            None
        }
    }
}

impl CharacterStatus {
    /// The word stored for the status.
    pub fn as_word(&self) -> (r: &'static str)
        ensures
            r@ == status_word(*self),
    {
        match self {
            CharacterStatus::Draft => "draft",
            CharacterStatus::Active => "active",
            CharacterStatus::Inactive => "inactive",
        }
    }

    /// The status a stored word names, if any.
    pub fn from_word(word: &str) -> (r: Option<CharacterStatus>)
        ensures
            r matches Some(s) ==> status_word(s) == word@,
            r is None ==> word@ != "draft"@ && word@ != "active"@ && word@ != "inactive"@,
    {
        proof {
            reveal_stored_words();
        }
        if crate::text::text_eq(word, "draft") {
            Some(CharacterStatus::Draft)
        } else if crate::text::text_eq(word, "active") {
            Some(CharacterStatus::Active)
        } else if crate::text::text_eq(word, "inactive") {
            Some(CharacterStatus::Inactive)
        } else {
            None
        }
    }
}

/// The word stored for a role or a status reads back as that role or status:
/// distinct roles and distinct statuses are stored as distinct words.
pub proof fn lemma_stored_words_read_back(r1: Role, r2: Role, s1: CharacterStatus, s2: CharacterStatus)
    ensures
        role_word(r1) == role_word(r2) ==> r1 == r2,
        status_word(s1) == status_word(s2) ==> s1 == s2,
{
    reveal_stored_words();
}

} // verus!
