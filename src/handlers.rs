use crate::entities::{
    account_by_id_and_token, account_by_name, account_by_token, account_renamed,
    accounts_well_formed, tokens_distinct, Article, ArticleDraft,
    ArticleGender, ArticleSize, ArticleStatus, ArticleType, CreateArticle, NewUser, Timestamp,
    User,
};
use crate::jwt::Jwt;
use crate::policy::{authorization, conclude, settled, Authorization};
use vstd::prelude::*;
use vstd::string::*;

verus! {

/// Why a request was turned away. Failing token checks and failing ownership
/// checks are one and the same `Unauthorized`, so a caller cannot tell which
/// check failed.
#[derive(Clone, Copy, Debug, PartialEq, Eq, Structural)]
pub enum Failure {
    /// Malformed or out-of-range input, or a name already taken or whose
    /// token is on file for another account.
    Validation,
    /// The token does not verify or is not the one on file for the account.
    Unauthorized,
    /// The resource does not exist.
    NotFound,
    /// The store or the signer failed.
    Internal,
}

impl Failure {
    /// The HTTP status that answers the failure.
    pub fn status(&self) -> (r: u16)
        ensures
            r == match self {
                Failure::Validation => 400u16,
                Failure::Unauthorized => 401u16,
                Failure::NotFound => 404u16,
                Failure::Internal => 500u16,
            },
    {
        match self {
            Failure::Validation => 400,
            Failure::Unauthorized => 401,
            Failure::NotFound => 404,
            Failure::Internal => 500,
        }
    }
}

/// The link to a stored image: the base URL, a slash, the image's identifier
/// and the `.png` extension.
pub open spec fn spec_image_url(base_url: Seq<char>, image_id: Seq<char>) -> Seq<char> {
    base_url + "/"@ + image_id + ".png"@
}

pub fn image_url(base_url: &str, image_id: &str) -> (r: String)
    ensures
        r@ == spec_image_url(base_url@, image_id@),
{
    let url = String::from_str(base_url);
    let url = url.concat("/");
    let url = url.concat(image_id);
    url.concat(".png")
}

/// A listing as it is handed out: its image as a full link.
#[derive(Clone, Debug, PartialEq, Eq)]
pub struct ArticleResponse {
    pub id: i32,
    pub title: String,
    pub description: String,
    pub owner_id: i32,
    pub image_url: String,
    pub size: ArticleSize,
    pub gender: ArticleGender,
    pub price: i32,
    pub status: ArticleStatus,
    pub article_type: ArticleType,
    pub created_at: Timestamp,
    pub updated_at: Timestamp,
}

impl ArticleResponse {
    /// Whether this is `article` handed out with images under `base_url`.
    pub open spec fn presents(self, article: Article, base_url: Seq<char>) -> bool {
        &&& self.id == article.id
        &&& self.title == article.title
        &&& self.description == article.description
        &&& self.owner_id == article.owner_id
        &&& self.image_url@ == spec_image_url(base_url, article.image_id@)
        &&& self.size == article.size
        &&& self.gender == article.gender
        &&& self.price == article.price
        &&& self.status == article.status
        &&& self.article_type == article.article_type
        &&& self.created_at == article.created_at
        &&& self.updated_at == article.updated_at
    }

    pub fn from_article(article: Article, s3_base_url: String) -> (r: Self)
        ensures
            r.presents(article, s3_base_url@),
    {
        let image_url = image_url(s3_base_url.as_str(), article.image_id.as_str());
        ArticleResponse {
            id: article.id,
            title: article.title,
            description: article.description,
            owner_id: article.owner_id,
            image_url,
            size: article.size,
            gender: article.gender,
            price: article.price,
            status: article.status,
            article_type: article.article_type,
            created_at: article.created_at,
            updated_at: article.updated_at,
        }
    }
}

/// An inbound request, with what its route and body carry.
#[derive(Clone, Debug, PartialEq, Eq)]
pub enum Request {
    /// `GET /users/:id`
    GetUser { id: i32 },
    /// `POST /users`
    CreateUser { name: String },
    /// `PUT /users/:id` with a bearer token
    UpdateUser { id: i32, token: String, name: String },
    /// `GET /articles/:id`
    GetArticle { id: i32 },
    /// `POST /articles` with a bearer token
    CreateArticle { token: String, draft: ArticleDraft },
}

/// One operation on the store.
#[derive(Clone, Debug, PartialEq, Eq)]
pub enum StoreCall {
    /// The account under an id, if any.
    UserById(i32),
    /// The account with a name, if any.
    UserByName(String),
    /// The account under an id whose stored token is exactly the one given, if any.
    UserByIdAndToken(i32, String),
    /// The account whose stored token is exactly the one given, if any.
    UserByToken(String),
    /// Insert an account; the store assigns its id and balance.
    InsertUser(NewUser),
    /// Set the name of the account under an id; the row after, if there is one.
    RenameUser(i32, String),
    /// The listing under an id, if any.
    ArticleById(i32),
    /// Insert a listing; the store assigns its id and timestamps.
    InsertArticle(CreateArticle),
}

/// What the store answered to a `StoreCall`.
#[derive(Clone, Debug, PartialEq, Eq)]
pub enum StoreReply {
    /// The account the call found, inserted or renamed.
    Users(Option<User>),
    /// The listing the call found or inserted.
    Articles(Option<Article>),
    /// The store failed.
    Failed,
}

/// A successful answer.
#[derive(Clone, Debug, PartialEq, Eq)]
pub enum Outcome {
    User(User),
    Article(Article),
    Listing(ArticleResponse),
}

/// Where a request stands while it waits for the store.
#[derive(Clone, Debug, PartialEq, Eq)]
pub enum Stage {
    /// Waiting for the account asked for.
    FetchUser,
    /// Waiting to learn whether the name is taken.
    CheckName { name: String },
    /// Waiting to learn whether the token issued for the account is already on
    /// file for another one.
    CheckToken { user: NewUser },
    /// Waiting for the new account.
    StoreUser,
    /// Waiting for the account that must hold the token before the rename.
    AuthorizeRename { id: i32, token: String, name: String },
    /// Waiting for the renamed account.
    Rename,
    /// Waiting for the listing asked for.
    FetchArticle,
    /// Waiting for the owner that must hold the token before the listing is stored.
    AuthorizeListing { token: String, article: CreateArticle },
    /// Waiting for the new listing.
    StoreArticle,
}

/// What to do next with a request.
#[derive(Debug, PartialEq, Eq)]
pub enum Step {
    /// Make the call on the store, then resume the request at the stage with its reply.
    Call(Stage, StoreCall),
    /// Answer the request.
    Done(Result<Outcome, Failure>),
}

/// The rules of every endpoint, with what they need from outside the request:
/// the token service and the base URL of listing images.
pub struct Service {
    pub jwt: Jwt,
    pub image_base_url: String,
}

impl Service {
    pub fn new(jwt: Jwt, image_base_url: String) -> (r: Self)
        ensures
            r.jwt == jwt,
            r.image_base_url == image_base_url,
    {
        Service { jwt, image_base_url }
    }

    /// The first step of `request` at time `now`. Structural input is checked
    /// before anything else and a token before the store is asked.
    pub open spec fn first_step(&self, request: Request, now: int) -> Step {
        match request {
            Request::GetUser { id } => if id < 0 {
                Step::Done(Err(Failure::Validation))
            } else {
                Step::Call(Stage::FetchUser, StoreCall::UserById(id))
            },
            Request::CreateUser { name } => Step::Call(
                Stage::CheckName { name },
                StoreCall::UserByName(name),
            ),
            Request::UpdateUser { id, token, name } => if id < 0 {
                Step::Done(Err(Failure::Validation))
            } else if self.jwt.verified_subject(token@, now) is None {
                Step::Done(Err(Failure::Unauthorized))
            } else {
                Step::Call(
                    Stage::AuthorizeRename { id, token, name },
                    StoreCall::UserByIdAndToken(id, token),
                )
            },
            Request::GetArticle { id } => if id < 0 {
                Step::Done(Err(Failure::Validation))
            } else {
                Step::Call(Stage::FetchArticle, StoreCall::ArticleById(id))
            },
            Request::CreateArticle { token, draft } => match draft.spec_listing() {
                None => Step::Done(Err(Failure::Validation)),
                Some(article) => if article.owner_id < 0 {
                    Step::Done(Err(Failure::Validation))
                } else if self.jwt.verified_subject(token@, now) is None {
                    Step::Done(Err(Failure::Unauthorized))
                } else {
                    Step::Call(
                        Stage::AuthorizeListing { token, article },
                        StoreCall::UserByIdAndToken(article.owner_id, token),
                    )
                },
            },
        }
    }

    /// Whether `step` may follow `stage` once the store answered `reply`.
    pub open spec fn leads_to(&self, stage: Stage, reply: StoreReply, step: Step) -> bool {
        match (stage, reply) {
            (_, StoreReply::Failed) => step == Step::Done(Err(Failure::Internal)),
            (Stage::FetchUser, StoreReply::Users(Some(user))) => step == Step::Done(
                Ok(Outcome::User(user)),
            ),
            (Stage::FetchUser, StoreReply::Users(None)) => step == Step::Done(
                Err(Failure::NotFound),
            ),
            (Stage::CheckName { name }, StoreReply::Users(Some(_))) => step == Step::Done(
                Err(Failure::Validation),
            ),
            (Stage::CheckName { name }, StoreReply::Users(None)) => step matches Step::Call(
                Stage::CheckToken { user },
                StoreCall::UserByToken(token),
            ) && user.name == name && user.jwt@ == self.jwt.issued_token(name@) && token == user.jwt,
            (Stage::CheckToken { user }, StoreReply::Users(Some(_))) => step == Step::Done(
                Err(Failure::Validation),
            ),
            (Stage::CheckToken { user }, StoreReply::Users(None)) => step == Step::Call(
                Stage::StoreUser,
                StoreCall::InsertUser(user),
            ),
            (Stage::StoreUser, StoreReply::Users(Some(user))) => step == Step::Done(
                Ok(Outcome::User(user)),
            ),
            (Stage::AuthorizeRename { id, token, name }, StoreReply::Users(found)) => if settled(
                id,
                token@,
                Ok(found),
            ) is Authorized {
                step == Step::Call(Stage::Rename, StoreCall::RenameUser(id, name))
            } else {
                step == Step::Done(Err(Failure::Unauthorized))
            },
            (Stage::Rename, StoreReply::Users(Some(user))) => step == Step::Done(
                Ok(Outcome::User(user)),
            ),
            (Stage::Rename, StoreReply::Users(None)) => step == Step::Done(Err(Failure::NotFound)),
            (Stage::FetchArticle, StoreReply::Articles(Some(article))) => step matches Step::Done(
                Ok(Outcome::Listing(view)),
            ) && view.presents(article, self.image_base_url@),
            (Stage::FetchArticle, StoreReply::Articles(None)) => step == Step::Done(
                Err(Failure::NotFound),
            ),
            (Stage::AuthorizeListing { token, article }, StoreReply::Users(found)) => if settled(
                article.owner_id,
                token@,
                Ok(found),
            ) is Authorized {
                step == Step::Call(Stage::StoreArticle, StoreCall::InsertArticle(article))
            } else {
                step == Step::Done(Err(Failure::Unauthorized))
            },
            (Stage::StoreArticle, StoreReply::Articles(Some(article))) => step == Step::Done(
                Ok(Outcome::Article(article)),
            ),
            _ => step == Step::Done(Err(Failure::Internal)),
        }
    }
    /// Starts `request` at time `now`.
    pub fn start(&self, request: Request, now: u64) -> (r: Step)
        ensures
            r == self.first_step(request, now as int),
    {
        match request {
            Request::GetUser { id } => {
                if id < 0 {
                    Step::Done(Err(Failure::Validation))
                } else {
                    Step::Call(Stage::FetchUser, StoreCall::UserById(id))
                }
            },
            Request::CreateUser { name } => {
                let wanted = name.clone();
                Step::Call(Stage::CheckName { name }, StoreCall::UserByName(wanted))
            },
            Request::UpdateUser { id, token, name } => {
                if id < 0 {
                    return Step::Done(Err(Failure::Validation));
                }
                match self.jwt.validate(token.clone(), now) {
                    Err(_) => Step::Done(Err(Failure::Unauthorized)),
                    Ok(_) => {
                        let presented = token.clone();
                        Step::Call(
                            Stage::AuthorizeRename { id, token, name },
                            StoreCall::UserByIdAndToken(id, presented),
                        )
                    },
                }
            },
            Request::GetArticle { id } => {
                if id < 0 {
                    Step::Done(Err(Failure::Validation))
                } else {
                    Step::Call(Stage::FetchArticle, StoreCall::ArticleById(id))
                }
            },
            Request::CreateArticle { token, draft } => {
                match draft.into_listing() {
                    None => Step::Done(Err(Failure::Validation)),
                    Some(article) => {
                        if article.owner_id < 0 {
                            return Step::Done(Err(Failure::Validation));
                        }
                        match self.jwt.validate(token.clone(), now) {
                            Err(_) => Step::Done(Err(Failure::Unauthorized)),
                            Ok(_) => {
                                let owner_id = article.owner_id;
                                let presented = token.clone();
                                Step::Call(
                                    Stage::AuthorizeListing { token, article },
                                    StoreCall::UserByIdAndToken(owner_id, presented),
                                )
                            },
                        }
                    },
                }
            },
        }
    }

    /// Resumes a request that waited at `stage` with the store's `reply`.
    pub fn resume(&self, stage: Stage, reply: StoreReply) -> (r: Step)
        ensures
            self.leads_to(stage, reply, r),
    {
        match (stage, reply) {
            (_, StoreReply::Failed) => Step::Done(Err(Failure::Internal)),
            (Stage::FetchUser, StoreReply::Users(Some(user))) => Step::Done(Ok(Outcome::User(user))),
            (Stage::FetchUser, StoreReply::Users(None)) => Step::Done(Err(Failure::NotFound)),
            (Stage::CheckName { name }, StoreReply::Users(Some(_))) => Step::Done(
                Err(Failure::Validation),
            ),
            (Stage::CheckName { name }, StoreReply::Users(None)) => {
                match self.jwt.generate(name.clone()) {
                    Ok(token) => {
                        let issued = token.clone();
                        Step::Call(
                            Stage::CheckToken { user: NewUser { name, jwt: token } },
                            StoreCall::UserByToken(issued),
                        )
                    },
                    Err(_) => Step::Done(Err(Failure::Internal)),
                }
            },
            (Stage::CheckToken { user }, StoreReply::Users(Some(_))) => Step::Done(
                Err(Failure::Validation),
            ),
            (Stage::CheckToken { user }, StoreReply::Users(None)) => Step::Call(
                Stage::StoreUser,
                StoreCall::InsertUser(user),
            ),
            (Stage::StoreUser, StoreReply::Users(Some(user))) => Step::Done(Ok(Outcome::User(user))),
            (Stage::AuthorizeRename { id, token, name }, StoreReply::Users(found)) => {
                match conclude(id, &token, Ok(found)) {
                    Authorization::Authorized(_) => Step::Call(
                        Stage::Rename,
                        StoreCall::RenameUser(id, name),
                    ),
                    _ => Step::Done(Err(Failure::Unauthorized)),
                }
            },
            (Stage::Rename, StoreReply::Users(Some(user))) => Step::Done(Ok(Outcome::User(user))),
            (Stage::Rename, StoreReply::Users(None)) => Step::Done(Err(Failure::NotFound)),
            (Stage::FetchArticle, StoreReply::Articles(Some(article))) => {
                let view = ArticleResponse::from_article(article, self.image_base_url.clone());
                Step::Done(Ok(Outcome::Listing(view)))
            },
            (Stage::FetchArticle, StoreReply::Articles(None)) => Step::Done(Err(Failure::NotFound)),
            (Stage::AuthorizeListing { token, article }, StoreReply::Users(found)) => {
                match conclude(article.owner_id, &token, Ok(found)) {
                    Authorization::Authorized(_) => Step::Call(
                        Stage::StoreArticle,
                        StoreCall::InsertArticle(article),
                    ),
                    _ => Step::Done(Err(Failure::Unauthorized)),
                }
            },
            (Stage::StoreArticle, StoreReply::Articles(Some(article))) => Step::Done(
                Ok(Outcome::Article(article)),
            ),
            _ => Step::Done(Err(Failure::Internal)),
        }
    }
}

/// A negative id is a validation failure before anything is looked up, whatever
/// the store holds.
pub proof fn negative_id_is_rejected(svc: Service, id: i32, now: int)
    requires
        id < 0,
    ensures
        svc.first_step((Request::GetUser { id }), now) == Step::Done(Err(Failure::Validation)),
        svc.first_step((Request::GetArticle { id }), now) == Step::Done(Err(Failure::Validation)),
{
}

/// Registering a name that an account on file already holds is a validation
/// failure, reached through one lookup by name and no write, so the accounts
/// stay as they were and the holder's token authorizes as it did before.
pub proof fn duplicate_registration_is_rejected(
    svc: Service,
    accounts: Map<i32, User>,
    holder: i32,
    name: String,
    now: int,
    step: Step,
)
    requires
        accounts_well_formed(accounts),
        accounts.contains_key(holder),
        accounts[holder].name@ == name@,
        svc.leads_to(
            (Stage::CheckName { name }),
            StoreReply::Users(account_by_name(accounts, name@)),
            step,
        ),
    ensures
        svc.first_step((Request::CreateUser { name }), now) == Step::Call(
            (Stage::CheckName { name }),
            StoreCall::UserByName(name),
        ),
        step == Step::Done(Err(Failure::Validation)),
        svc.jwt.verified_subject(accounts[holder].jwt@, now) is Some ==> authorization(
            svc.jwt.verified_subject(accounts[holder].jwt@, now),
            holder,
            accounts[holder].jwt@,
            Ok(account_by_id_and_token(accounts, holder, accounts[holder].jwt@)),
        ) is Authorized,
{
    assert(accounts.contains_key(holder) && accounts[holder].name@ == name@);
}

/// Registering a name that no account holds issues the token for the name and
/// asks the store whether any account holds that token already.
pub proof fn free_name_is_registered_with_issued_token(
    svc: Service,
    accounts: Map<i32, User>,
    name: String,
    step: Step,
    row: User,
    done: Step,
)
    requires
        accounts_well_formed(accounts),
        account_by_name(accounts, name@) is None,
        svc.leads_to(
            (Stage::CheckName { name }),
            StoreReply::Users(account_by_name(accounts, name@)),
            step,
        ),
    ensures
        step matches Step::Call(Stage::CheckToken { user }, StoreCall::UserByToken(token))
            && user.name == name && user.jwt@ == svc.jwt.issued_token(name@) && token == user.jwt,
        svc.leads_to(Stage::StoreUser, StoreReply::Users(Some(row)), done) ==> done == Step::Done(
            Ok(Outcome::User(row)),
        ),
{
}

/// An account is inserted, with its token stored as issued, exactly when no
/// account holds that token; otherwise the registration is a validation failure.
pub proof fn registration_refuses_token_on_file(
    svc: Service,
    accounts: Map<i32, User>,
    user: NewUser,
    step: Step,
)
    requires
        accounts_well_formed(accounts),
        svc.leads_to(
            (Stage::CheckToken { user }),
            StoreReply::Users(account_by_token(accounts, user.jwt@)),
            step,
        ),
    ensures
        (step == Step::Call(Stage::StoreUser, StoreCall::InsertUser(user))) <==> (forall|id: i32|
            #[trigger] accounts.contains_key(id) ==> accounts[id].jwt@ != user.jwt@),
        step != Step::Call(Stage::StoreUser, StoreCall::InsertUser(user)) ==> step == Step::Done(
            Err(Failure::Validation),
        ),
{
    if exists|id: i32| #[trigger] accounts.contains_key(id) && accounts[id].jwt@ == user.jwt@ {
        let id = choose|id: i32| #[trigger] accounts.contains_key(id) && accounts[id].jwt@ == user.jwt@;
        assert(accounts.contains_key(id) && accounts[id].jwt@ == user.jwt@);
    }
}

/// No two accounts come to hold one token: from accounts whose tokens are all
/// different, inserting the account that registration asks for keeps them so,
/// and so does a rename, which leaves every token as it was.
pub proof fn accounts_keep_tokens_distinct(
    svc: Service,
    accounts: Map<i32, User>,
    user: NewUser,
    new_id: i32,
    balance: i32,
    id: i32,
    name: String,
)
    requires
        accounts_well_formed(accounts),
        tokens_distinct(accounts),
    ensures
        !accounts.contains_key(new_id) && svc.leads_to(
            (Stage::CheckToken { user }),
            StoreReply::Users(account_by_token(accounts, user.jwt@)),
            Step::Call(Stage::StoreUser, StoreCall::InsertUser(user)),
        ) ==> tokens_distinct(
            accounts.insert(
                new_id,
                (User { id: new_id, name: user.name, jwt: user.jwt, balance }),
            ),
        ),
        accounts.contains_key(id) ==> tokens_distinct(
            accounts.insert(id, account_renamed(accounts, id, name)->Some_0),
        ),
{
    let inserted = accounts.insert(
        new_id,
        User { id: new_id, name: user.name, jwt: user.jwt, balance },
    );
    if !accounts.contains_key(new_id) && svc.leads_to(
        Stage::CheckToken { user },
        StoreReply::Users(account_by_token(accounts, user.jwt@)),
        Step::Call(Stage::StoreUser, StoreCall::InsertUser(user)),
    ) {
        registration_refuses_token_on_file(
            svc,
            accounts,
            user,
            Step::Call(Stage::StoreUser, StoreCall::InsertUser(user)),
        );
        assert forall|a: i32, b: i32|
            inserted.contains_key(a) && inserted.contains_key(b) && a != b implies #[trigger] inserted[a].jwt@
                != #[trigger] inserted[b].jwt@ by {
            if a != new_id && b != new_id {
                assert(accounts[a].jwt == inserted[a].jwt);
                assert(accounts[b].jwt == inserted[b].jwt);
            }
        }
    }
    if accounts.contains_key(id) {
        let renamed = accounts.insert(id, account_renamed(accounts, id, name)->Some_0);
        assert forall|a: i32, b: i32|
            renamed.contains_key(a) && renamed.contains_key(b) && a != b implies #[trigger] renamed[a].jwt@
                != #[trigger] renamed[b].jwt@ by {
            assert(renamed[a].jwt == accounts[a].jwt);
            assert(renamed[b].jwt == accounts[b].jwt);
        }
    }
}

/// A listing claimed for one account cannot be created with the token of
/// another account, even though that token verifies: the accounts' tokens are
/// all different, as registration keeps them.
pub proof fn foreign_token_cannot_create_listing(
    svc: Service,
    accounts: Map<i32, User>,
    holder: i32,
    draft: ArticleDraft,
    now: int,
    step: Step,
)
    requires
        accounts_well_formed(accounts),
        accounts.contains_key(holder),
        accounts.contains_key(draft.owner_id),
        holder != draft.owner_id,
        tokens_distinct(accounts),
        draft.owner_id >= 0,
        svc.jwt.verified_subject(accounts[holder].jwt@, now) is Some,
        draft.spec_listing() is Some,
        svc.leads_to(
            (Stage::AuthorizeListing {
                token: accounts[holder].jwt,
                article: draft.spec_listing()->Some_0,
            }),
            StoreReply::Users(
                account_by_id_and_token(accounts, draft.owner_id, accounts[holder].jwt@),
            ),
            step,
        ),
    ensures
        svc.first_step((Request::CreateArticle { token: accounts[holder].jwt, draft }), now)
            == Step::Call(
            (Stage::AuthorizeListing {
                token: accounts[holder].jwt,
                article: draft.spec_listing()->Some_0,
            }),
            StoreCall::UserByIdAndToken(draft.owner_id, accounts[holder].jwt),
        ),
        step == Step::Done(Err(Failure::Unauthorized)),
{
}

/// A rename goes ahead exactly when the token verifies and is the one on file
/// for the very account renamed; any other token is unauthorized before anything
/// is written. Once it goes ahead, the store's renamed account is the answer:
/// the new name with id, token and balance as they were.
pub proof fn rename_needs_token_on_file(
    svc: Service,
    accounts: Map<i32, User>,
    id: i32,
    token: String,
    name: String,
    now: int,
    step: Step,
    done: Step,
)
    requires
        accounts_well_formed(accounts),
        id >= 0,
    ensures
        svc.jwt.verified_subject(token@, now) is None ==> svc.first_step(
            (Request::UpdateUser { id, token, name }),
            now,
        ) == Step::Done(Err(Failure::Unauthorized)),
        svc.jwt.verified_subject(token@, now) is Some ==> svc.first_step(
            (Request::UpdateUser { id, token, name }),
            now,
        ) == Step::Call(
            (Stage::AuthorizeRename { id, token, name }),
            StoreCall::UserByIdAndToken(id, token),
        ),
        svc.leads_to(
            (Stage::AuthorizeRename { id, token, name }),
            StoreReply::Users(account_by_id_and_token(accounts, id, token@)),
            step,
        ) ==> ((step == Step::Call(Stage::Rename, StoreCall::RenameUser(id, name))) <==> (
        accounts.contains_key(id) && accounts[id].jwt@ == token@)),
        svc.leads_to(
            (Stage::AuthorizeRename { id, token, name }),
            StoreReply::Users(account_by_id_and_token(accounts, id, token@)),
            step,
        ) && step != Step::Call(Stage::Rename, StoreCall::RenameUser(id, name)) ==> step
            == Step::Done(Err(Failure::Unauthorized)),
        accounts.contains_key(id) && svc.leads_to(
            Stage::Rename,
            StoreReply::Users(account_renamed(accounts, id, name)),
            done,
        ) ==> done == Step::Done(
            Ok(
                Outcome::User(
                    (User {
                        id,
                        name,
                        jwt: accounts[id].jwt,
                        balance: accounts[id].balance,
                    }),
                ),
            ),
        ),
{
}

/// A well-formed listing is stored exactly when the token verifies and is the
/// one on file for the owner the listing names; the listing asked to be stored
/// is the one described, owner included, and the store's row is the answer.
pub proof fn listing_needs_owner_token(
    svc: Service,
    accounts: Map<i32, User>,
    token: String,
    draft: ArticleDraft,
    now: int,
    step: Step,
    row: Article,
    done: Step,
)
    requires
        accounts_well_formed(accounts),
        draft.spec_listing() is Some,
        draft.owner_id >= 0,
    ensures
        draft.spec_listing()->Some_0.owner_id == draft.owner_id,
        svc.jwt.verified_subject(token@, now) is None ==> svc.first_step(
            (Request::CreateArticle { token, draft }),
            now,
        ) == Step::Done(Err(Failure::Unauthorized)),
        svc.jwt.verified_subject(token@, now) is Some ==> svc.first_step(
            (Request::CreateArticle { token, draft }),
            now,
        ) == Step::Call(
            (Stage::AuthorizeListing { token, article: draft.spec_listing()->Some_0 }),
            StoreCall::UserByIdAndToken(draft.owner_id, token),
        ),
        svc.leads_to(
            (Stage::AuthorizeListing { token, article: draft.spec_listing()->Some_0 }),
            StoreReply::Users(account_by_id_and_token(accounts, draft.owner_id, token@)),
            step,
        ) ==> ((step == Step::Call(
            Stage::StoreArticle,
            StoreCall::InsertArticle(draft.spec_listing()->Some_0),
        )) <==> (accounts.contains_key(draft.owner_id) && accounts[draft.owner_id].jwt@
            == token@)),
        svc.leads_to(
            (Stage::AuthorizeListing { token, article: draft.spec_listing()->Some_0 }),
            StoreReply::Users(account_by_id_and_token(accounts, draft.owner_id, token@)),
            step,
        ) && step != Step::Call(
            Stage::StoreArticle,
            StoreCall::InsertArticle(draft.spec_listing()->Some_0),
        ) ==> step == Step::Done(Err(Failure::Unauthorized)),
        svc.leads_to(Stage::StoreArticle, StoreReply::Articles(Some(row)), done) ==> done
            == Step::Done(Ok(Outcome::Article(row))),
{
}

} // verus!
