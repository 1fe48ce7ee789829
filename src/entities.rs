use vstd::prelude::*;
use vstd::string::*;

verus! {

/// Whether two texts hold the same characters.
fn same_text(a: &str, b: &str) -> (r: bool)
    ensures
        r == (a@ == b@),
{
    let n = a.unicode_len();
    if n != b.unicode_len() {
        return false;
    }
    let mut i: usize = 0;
    while i < n
        invariant
            n == a@.len(),
            n == b@.len(),
            0 <= i <= n,
            forall|j: int| 0 <= j < i ==> a@[j] == b@[j],
        decreases n - i,
    {
        if a.get_char(i) != b.get_char(i) {
            return false;
        }
        i = i + 1;
    }
    proof {
        assert(a@ =~= b@);
    }
    true
}

/// The kind of garment a listing offers.
#[derive(Clone, Copy, Debug, PartialEq, Eq, Structural)]
pub enum ArticleType {
    Cap,
    Kimono,
    Jacket,
    Hoodie,
    TShirt,
    Shoes,
}

impl ArticleType {
    /// The name under which the value travels and is stored.
    pub open spec fn spec_name(self) -> Seq<char> {
        match self {
            ArticleType::Cap => "cap"@,
            ArticleType::Kimono => "kimono"@,
            ArticleType::Jacket => "jacket"@,
            ArticleType::Hoodie => "hoodie"@,
            ArticleType::TShirt => "t_shirt"@,
            ArticleType::Shoes => "shoes"@,
        }
    }

    pub open spec fn spec_from_name(name: Seq<char>) -> Option<Self> {
        if name == "cap"@ {
            Some(ArticleType::Cap)
        } else if name == "kimono"@ {
            Some(ArticleType::Kimono)
        } else if name == "jacket"@ {
            Some(ArticleType::Jacket)
        } else if name == "hoodie"@ {
            Some(ArticleType::Hoodie)
        } else if name == "t_shirt"@ {
            Some(ArticleType::TShirt)
        } else if name == "shoes"@ {
            Some(ArticleType::Shoes)
        } else {
            None
        }
    }

    pub fn name(&self) -> (r: &'static str)
        ensures
            r@ == self.spec_name(),
    {
        match self {
            ArticleType::Cap => "cap",
            ArticleType::Kimono => "kimono",
            ArticleType::Jacket => "jacket",
            ArticleType::Hoodie => "hoodie",
            ArticleType::TShirt => "t_shirt",
            ArticleType::Shoes => "shoes",
        }
    }

    /// The value named `name`; any other text is no value of the domain.
    pub fn from_name(name: &str) -> (r: Option<Self>)
        ensures
            r == Self::spec_from_name(name@),
    {
        if same_text(name, "cap") {
            Some(ArticleType::Cap)
        } else if same_text(name, "kimono") {
            Some(ArticleType::Kimono)
        } else if same_text(name, "jacket") {
            Some(ArticleType::Jacket)
        } else if same_text(name, "hoodie") {
            Some(ArticleType::Hoodie)
        } else if same_text(name, "t_shirt") {
            Some(ArticleType::TShirt)
        } else if same_text(name, "shoes") {
            Some(ArticleType::Shoes)
        } else {
            None
        }
    }
}

/// The size of a listed garment.
#[derive(Clone, Copy, Debug, PartialEq, Eq, Structural)]
pub enum ArticleSize {
    VeryLarge,
    Large,
    Medium,
    Small,
    VerySmall,
}

impl ArticleSize {
    /// The name under which the value travels and is stored.
    pub open spec fn spec_name(self) -> Seq<char> {
        match self {
            ArticleSize::VeryLarge => "very_large"@,
            ArticleSize::Large => "large"@,
            ArticleSize::Medium => "medium"@,
            ArticleSize::Small => "small"@,
            ArticleSize::VerySmall => "very_small"@,
        }
    }

    pub open spec fn spec_from_name(name: Seq<char>) -> Option<Self> {
        if name == "very_large"@ {
            Some(ArticleSize::VeryLarge)
        } else if name == "large"@ {
            Some(ArticleSize::Large)
        } else if name == "medium"@ {
            Some(ArticleSize::Medium)
        } else if name == "small"@ {
            Some(ArticleSize::Small)
        } else if name == "very_small"@ {
            Some(ArticleSize::VerySmall)
        } else {
            None
        }
    }

    pub fn name(&self) -> (r: &'static str)
        ensures
            r@ == self.spec_name(),
    {
        match self {
            ArticleSize::VeryLarge => "very_large",
            ArticleSize::Large => "large",
            ArticleSize::Medium => "medium",
            ArticleSize::Small => "small",
            ArticleSize::VerySmall => "very_small",
        }
    }

    /// The value named `name`; any other text is no value of the domain.
    pub fn from_name(name: &str) -> (r: Option<Self>)
        ensures
            r == Self::spec_from_name(name@),
    {
        if same_text(name, "very_large") {
            Some(ArticleSize::VeryLarge)
        } else if same_text(name, "large") {
            Some(ArticleSize::Large)
        } else if same_text(name, "medium") {
            Some(ArticleSize::Medium)
        } else if same_text(name, "small") {
            Some(ArticleSize::Small)
        } else if same_text(name, "very_small") {
            Some(ArticleSize::VerySmall)
        } else {
            None
        }
    }
}

/// Whom a listed garment is cut for.
#[derive(Clone, Copy, Debug, PartialEq, Eq, Structural)]
pub enum ArticleGender {
    Male,
    Female,
    Unisex,
}

impl ArticleGender {
    /// The name under which the value travels and is stored.
    pub open spec fn spec_name(self) -> Seq<char> {
        match self {
            ArticleGender::Male => "male"@,
            ArticleGender::Female => "female"@,
            ArticleGender::Unisex => "unisex"@,
        }
    }

    pub open spec fn spec_from_name(name: Seq<char>) -> Option<Self> {
        if name == "male"@ {
            Some(ArticleGender::Male)
        } else if name == "female"@ {
            Some(ArticleGender::Female)
        } else if name == "unisex"@ {
            Some(ArticleGender::Unisex)
        } else {
            None
        }
    }

    pub fn name(&self) -> (r: &'static str)
        ensures
            r@ == self.spec_name(),
    {
        match self {
            ArticleGender::Male => "male",
            ArticleGender::Female => "female",
            ArticleGender::Unisex => "unisex",
        }
    }

    /// The value named `name`; any other text is no value of the domain.
    pub fn from_name(name: &str) -> (r: Option<Self>)
        ensures
            r == Self::spec_from_name(name@),
    {
        if same_text(name, "male") {
            Some(ArticleGender::Male)
        } else if same_text(name, "female") {
            Some(ArticleGender::Female)
        } else if same_text(name, "unisex") {
            Some(ArticleGender::Unisex)
        } else {
            None
        }
    }
}

/// Whether a listing is on sale.
#[derive(Clone, Copy, Debug, PartialEq, Eq, Structural)]
pub enum ArticleStatus {
    InSale,
    Inactive,
}

impl ArticleStatus {
    /// The name under which the value travels and is stored.
    pub open spec fn spec_name(self) -> Seq<char> {
        match self {
            ArticleStatus::InSale => "in_sale"@,
            ArticleStatus::Inactive => "inactive"@,
        }
    }

    pub open spec fn spec_from_name(name: Seq<char>) -> Option<Self> {
        if name == "in_sale"@ {
            Some(ArticleStatus::InSale)
        } else if name == "inactive"@ {
            Some(ArticleStatus::Inactive)
        } else {
            None
        }
    }

    pub fn name(&self) -> (r: &'static str)
        ensures
            r@ == self.spec_name(),
    {
        match self {
            ArticleStatus::InSale => "in_sale",
            ArticleStatus::Inactive => "inactive",
        }
    }

    /// The value named `name`; any other text is no value of the domain.
    pub fn from_name(name: &str) -> (r: Option<Self>)
        ensures
            r == Self::spec_from_name(name@),
    {
        if same_text(name, "in_sale") {
            Some(ArticleStatus::InSale)
        } else if same_text(name, "inactive") {
            Some(ArticleStatus::Inactive)
        } else {
            None
        }
    }
}


/// A point in time as the store reports it: whole seconds since the Unix epoch
/// and the nanoseconds past that second.
#[derive(Clone, Copy, Debug, PartialEq, Eq, Structural)]
pub struct Timestamp {
    pub seconds: i64,
    pub nanos: u32,
}

/// A stored listing.
#[derive(Clone, Debug, PartialEq, Eq)]
pub struct Article {
    pub id: i32,
    pub title: String,
    pub description: String,
    pub owner_id: i32,
    pub image_id: String,
    pub size: ArticleSize,
    pub gender: ArticleGender,
    pub price: i32,
    pub status: ArticleStatus,
    pub article_type: ArticleType,
    pub created_at: Timestamp,
    pub updated_at: Timestamp,
}

/// The fields of a listing to create; the store assigns the rest.
#[derive(Clone, Debug, PartialEq, Eq)]
pub struct CreateArticle {
    pub title: String,
    pub description: String,
    pub owner_id: i32,
    pub image_id: String,
    pub size: ArticleSize,
    pub gender: ArticleGender,
    pub price: i32,
    pub status: ArticleStatus,
    pub article_type: ArticleType,
}

/// A listing to create as it arrives, its enumerated fields still as text.
#[derive(Clone, Debug, PartialEq, Eq)]
pub struct ArticleDraft {
    pub title: String,
    pub description: String,
    pub owner_id: i32,
    pub image_id: String,
    pub size: String,
    pub gender: String,
    pub price: i32,
    pub status: String,
    pub article_type: String,
}

impl ArticleDraft {
    /// The listing the draft describes, if each enumerated field names a value
    /// of its domain.
    pub open spec fn spec_listing(self) -> Option<CreateArticle> {
        match (
            ArticleSize::spec_from_name(self.size@),
            ArticleGender::spec_from_name(self.gender@),
            ArticleStatus::spec_from_name(self.status@),
            ArticleType::spec_from_name(self.article_type@),
        ) {
            (Some(size), Some(gender), Some(status), Some(article_type)) => Some(
                CreateArticle {
                    title: self.title,
                    description: self.description,
                    owner_id: self.owner_id,
                    image_id: self.image_id,
                    size,
                    gender,
                    price: self.price,
                    status,
                    article_type,
                },
            ),
            _ => None,
        }
    }

    pub fn into_listing(self) -> (r: Option<CreateArticle>)
        ensures
            r == self.spec_listing(),
    {
        let size = ArticleSize::from_name(self.size.as_str());
        let gender = ArticleGender::from_name(self.gender.as_str());
        let status = ArticleStatus::from_name(self.status.as_str());
        let article_type = ArticleType::from_name(self.article_type.as_str());
        match (size, gender, status, article_type) {
            (Some(size), Some(gender), Some(status), Some(article_type)) => Some(
                CreateArticle {
                    title: self.title,
                    description: self.description,
                    owner_id: self.owner_id,
                    image_id: self.image_id,
                    size,
                    gender,
                    price: self.price,
                    status,
                    article_type,
                },
            ),
            _ => None,
        }
    }
}

/// A stored listing image.
#[derive(Clone, Debug, PartialEq, Eq)]
pub struct Image {
    pub id: i32,
    pub article_id: i32,
    pub filename: String,
    pub data: Vec<u8>,
}

/// A stored account.
#[derive(Clone, Debug, PartialEq, Eq)]
pub struct User {
    pub id: i32,
    pub name: String,
    /// the token bound to the account when it was created
    pub jwt: String,
    pub balance: i32,
}

/// The fields of an account to create; the store assigns the rest.
#[derive(Clone, Debug, PartialEq, Eq)]
pub struct NewUser {
    pub name: String,
    pub jwt: String,
}

/// The store could not carry out an operation.
#[derive(Clone, Copy, Debug, PartialEq, Eq, Structural)]
pub struct StoreError;

/// The accounts a store holds, by id, each under its own id.
pub open spec fn accounts_well_formed(accounts: Map<i32, User>) -> bool {
    forall|id: i32| #[trigger] accounts.contains_key(id) ==> accounts[id].id == id
}

/// What the store finds for a name; names are unique.
pub open spec fn account_by_name(accounts: Map<i32, User>, name: Seq<char>) -> Option<User> {
    if exists|id: i32| #[trigger] accounts.contains_key(id) && accounts[id].name@ == name {
        let id = choose|id: i32| #[trigger] accounts.contains_key(id) && accounts[id].name@ == name;
        Some(accounts[id])
    } else {
        None
    }
}

/// What the store finds for an id and a token: the account only where its
/// stored token is exactly `token`.
pub open spec fn account_by_id_and_token(accounts: Map<i32, User>, id: i32, token: Seq<char>) -> Option<User> {
    if accounts.contains_key(id) && accounts[id].jwt@ == token {
        Some(accounts[id])
    } else {
        None
    }
}

/// What the store gives back for renaming the account under `id`: the account
/// with the new name and everything else as it was.
pub open spec fn account_renamed(accounts: Map<i32, User>, id: i32, name: String) -> Option<User> {
    if accounts.contains_key(id) {
        Some(
            User {
                id: accounts[id].id,
                name,
                jwt: accounts[id].jwt,
                balance: accounts[id].balance,
            },
        )
    } else {
        None
    }
}

/// What the store finds for a token: the account whose stored token is exactly
/// `token`.
pub open spec fn account_by_token(accounts: Map<i32, User>, token: Seq<char>) -> Option<User> {
    if exists|id: i32| #[trigger] accounts.contains_key(id) && accounts[id].jwt@ == token {
        let id = choose|id: i32| #[trigger] accounts.contains_key(id) && accounts[id].jwt@ == token;
        Some(accounts[id])
    } else {
        None
    }
}

/// No two accounts hold the same token.
pub open spec fn tokens_distinct(accounts: Map<i32, User>) -> bool {
    forall|a: i32, b: i32|
        #![trigger accounts[a].jwt, accounts[b].jwt]
        accounts.contains_key(a) && accounts.contains_key(b) && a != b ==> accounts[a].jwt@
            != accounts[b].jwt@
}

} // verus!
