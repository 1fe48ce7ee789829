use ichiba::{
    image_url, Article, ArticleDraft, ArticleGender, ArticleResponse, ArticleSize, ArticleStatus,
    ArticleType, Failure, Jwt, JwtConfig, Outcome, Request, Service, Stage, Step, StoreCall,
    StoreReply, Timestamp, User,
};

const NOW: u64 = 1_700_000_000;
const BASE_URL: &str = "https://bucket.example.com/images";

fn service() -> Service {
    let jwt = Jwt::new(JwtConfig { secret: "s3cret".to_string(), expiration: 4_000_000_000 });
    Service::new(jwt, BASE_URL.to_string())
}

fn stamp(seconds: i64) -> Timestamp {
    Timestamp { seconds, nanos: 0 }
}

/// A store held in memory that answers calls as the relational one does.
#[derive(Default)]
struct Store {
    users: Vec<User>,
    articles: Vec<Article>,
    calls: Vec<StoreCall>,
}

impl Store {
    fn answer(&mut self, call: StoreCall) -> StoreReply {
        self.calls.push(call.clone());
        match call {
            StoreCall::UserById(id) => StoreReply::Users(self.users.iter().find(|u| u.id == id).cloned()),
            StoreCall::UserByName(name) => {
                StoreReply::Users(self.users.iter().find(|u| u.name == name).cloned())
            }
            StoreCall::UserByIdAndToken(id, token) => StoreReply::Users(
                self.users.iter().find(|u| u.id == id && u.jwt == token).cloned(),
            ),
            StoreCall::UserByToken(token) => {
                StoreReply::Users(self.users.iter().find(|u| u.jwt == token).cloned())
            }
            StoreCall::InsertUser(new_user) => {
                let user = User {
                    id: self.users.len() as i32 + 1,
                    name: new_user.name,
                    jwt: new_user.jwt,
                    balance: 0,
                };
                self.users.push(user.clone());
                StoreReply::Users(Some(user))
            }
            StoreCall::RenameUser(id, name) => match self.users.iter_mut().find(|u| u.id == id) {
                Some(u) => {
                    u.name = name;
                    StoreReply::Users(Some(u.clone()))
                }
                None => StoreReply::Users(None),
            },
            StoreCall::ArticleById(id) => {
                StoreReply::Articles(self.articles.iter().find(|a| a.id == id).cloned())
            }
            StoreCall::InsertArticle(new) => {
                let article = Article {
                    id: self.articles.len() as i32 + 1,
                    title: new.title,
                    description: new.description,
                    owner_id: new.owner_id,
                    image_id: new.image_id,
                    size: new.size,
                    gender: new.gender,
                    price: new.price,
                    status: new.status,
                    article_type: new.article_type,
                    created_at: stamp(1),
                    updated_at: stamp(1),
                };
                self.articles.push(article.clone());
                StoreReply::Articles(Some(article))
            }
        }
    }

    fn run(&mut self, svc: &Service, request: Request) -> Result<Outcome, Failure> {
        let mut step = svc.start(request, NOW);
        loop {
            match step {
                Step::Call(stage, call) => {
                    let reply = self.answer(call);
                    step = svc.resume(stage, reply);
                }
                Step::Done(answer) => return answer,
            }
        }
    }

    fn register(&mut self, svc: &Service, name: &str) -> User {
        match self.run(svc, Request::CreateUser { name: name.to_string() }) {
            Ok(Outcome::User(u)) => u,
            other => panic!("registration failed: {:?}", other),
        }
    }
}

fn cap_draft(owner_id: i32) -> ArticleDraft {
    ArticleDraft {
        title: "Blue cap".to_string(),
        description: "Worn twice".to_string(),
        owner_id,
        image_id: "abc123".to_string(),
        size: "medium".to_string(),
        gender: "unisex".to_string(),
        price: 1200,
        status: "in_sale".to_string(),
        article_type: "cap".to_string(),
    }
}

fn stored_article() -> Article {
    Article {
        id: 9,
        title: "Kimono".to_string(),
        description: "Silk".to_string(),
        owner_id: 1,
        image_id: "k-9".to_string(),
        size: ArticleSize::Large,
        gender: ArticleGender::Female,
        price: 30000,
        status: ArticleStatus::InSale,
        article_type: ArticleType::Kimono,
        created_at: stamp(100),
        updated_at: stamp(200),
    }
}

#[test]
fn failure_status_codes() {
    assert_eq!(Failure::Validation.status(), 400);
    assert_eq!(Failure::Unauthorized.status(), 401);
    assert_eq!(Failure::NotFound.status(), 404);
    assert_eq!(Failure::Internal.status(), 500);
}

#[test]
fn image_url_joins_base_id_and_extension() {
    assert_eq!(image_url("https://b.example", "abc"), "https://b.example/abc.png");
    assert_eq!(image_url("", ""), "/.png");
}

#[test]
fn listing_is_handed_out_with_its_image_link() {
    let article = stored_article();
    let view = ArticleResponse::from_article(article.clone(), BASE_URL.to_string());
    assert_eq!(view.image_url, "https://bucket.example.com/images/k-9.png");
    assert_eq!(view.id, 9);
    assert_eq!(view.title, "Kimono");
    assert_eq!(view.description, "Silk");
    assert_eq!(view.owner_id, 1);
    assert_eq!(view.size, ArticleSize::Large);
    assert_eq!(view.gender, ArticleGender::Female);
    assert_eq!(view.price, 30000);
    assert_eq!(view.status, ArticleStatus::InSale);
    assert_eq!(view.article_type, ArticleType::Kimono);
    assert_eq!(view.created_at, stamp(100));
    assert_eq!(view.updated_at, stamp(200));
}

#[test]
fn fetching_a_listing_resolves_its_image_link() {
    let svc = service();
    let mut store = Store::default();
    store.articles.push(stored_article());
    match store.run(&svc, Request::GetArticle { id: 9 }) {
        Ok(Outcome::Listing(view)) => {
            assert_eq!(view.image_url, "https://bucket.example.com/images/k-9.png")
        }
        other => panic!("unexpected answer {:?}", other),
    }
    assert_eq!(store.run(&svc, Request::GetArticle { id: 10 }), Err(Failure::NotFound));
}

#[test]
fn negative_user_id_is_a_validation_failure() {
    let svc = service();
    let mut store = Store::default();
    store.register(&svc, "alice");
    assert_eq!(svc.start(Request::GetUser { id: -1 }, NOW), Step::Done(Err(Failure::Validation)));
    store.calls.clear();
    assert_eq!(store.run(&svc, Request::GetUser { id: -1 }), Err(Failure::Validation));
    assert_eq!(store.run(&svc, Request::GetArticle { id: -1 }), Err(Failure::Validation));
    assert!(store.calls.is_empty());
}

#[test]
fn fetching_a_user() {
    let svc = service();
    let mut store = Store::default();
    let alice = store.register(&svc, "alice");
    assert_eq!(
        svc.start(Request::GetUser { id: 0 }, NOW),
        Step::Call(Stage::FetchUser, StoreCall::UserById(0))
    );
    assert_eq!(store.run(&svc, Request::GetUser { id: alice.id }), Ok(Outcome::User(alice)));
    assert_eq!(store.run(&svc, Request::GetUser { id: 42 }), Err(Failure::NotFound));
}

#[test]
fn registration_stores_the_issued_token() {
    let svc = service();
    let mut store = Store::default();
    let alice = store.register(&svc, "alice");
    assert_eq!(alice.name, "alice");
    assert_eq!(svc.jwt.validate(alice.jwt.clone(), NOW), Ok("alice".to_string()));
    assert_eq!(store.users, vec![alice]);
}

#[test]
fn registering_a_taken_name_is_rejected() {
    let svc = service();
    let mut store = Store::default();
    let first = store.register(&svc, "alice");
    store.calls.clear();
    assert_eq!(
        store.run(&svc, Request::CreateUser { name: "alice".to_string() }),
        Err(Failure::Validation)
    );
    assert_eq!(store.calls, vec![StoreCall::UserByName("alice".to_string())]);
    assert_eq!(store.users, vec![first.clone()]);
    let rename = Request::UpdateUser {
        id: first.id,
        token: first.jwt.clone(),
        name: "alice2".to_string(),
    };
    match store.run(&svc, rename) {
        Ok(Outcome::User(u)) => assert_eq!((u.id, u.name, u.jwt), (first.id, "alice2".to_string(), first.jwt)),
        other => panic!("unexpected answer {:?}", other),
    }
}

#[test]
fn store_failure_is_internal() {
    let svc = service();
    let stage = Stage::CheckName { name: "bob".to_string() };
    assert_eq!(svc.resume(stage, StoreReply::Failed), Step::Done(Err(Failure::Internal)));
    assert_eq!(svc.resume(Stage::FetchUser, StoreReply::Failed), Step::Done(Err(Failure::Internal)));
    assert_eq!(
        svc.resume(Stage::StoreUser, StoreReply::Users(None)),
        Step::Done(Err(Failure::Internal))
    );
    assert_eq!(
        svc.resume(Stage::FetchUser, StoreReply::Articles(None)),
        Step::Done(Err(Failure::Internal))
    );
}

#[test]
fn rename_with_own_token_succeeds() {
    let svc = service();
    let mut store = Store::default();
    let alice = store.register(&svc, "alice");
    let request = Request::UpdateUser { id: alice.id, token: alice.jwt.clone(), name: "alicia".to_string() };
    match store.run(&svc, request) {
        Ok(Outcome::User(u)) => {
            assert_eq!(u.id, alice.id);
            assert_eq!(u.name, "alicia");
        }
        other => panic!("unexpected answer {:?}", other),
    }
}

#[test]
fn rename_with_foreign_token_is_unauthorized() {
    let svc = service();
    let mut store = Store::default();
    let alice = store.register(&svc, "alice");
    let bob = store.register(&svc, "bob");
    assert!(svc.jwt.validate(bob.jwt.clone(), NOW).is_ok());
    let request = Request::UpdateUser { id: alice.id, token: bob.jwt.clone(), name: "mallory".to_string() };
    assert_eq!(store.run(&svc, request), Err(Failure::Unauthorized));
    assert_eq!(store.users[0].name, "alice");
}

#[test]
fn rename_with_stale_token_is_unauthorized() {
    let svc = service();
    let mut store = Store::default();
    let alice = store.register(&svc, "alice");
    let stale = alice.jwt.clone();
    store.users[0].jwt = svc.jwt.generate("alice-again".to_string()).unwrap();
    let request = Request::UpdateUser { id: alice.id, token: stale, name: "x".to_string() };
    assert_eq!(store.run(&svc, request), Err(Failure::Unauthorized));
}

#[test]
fn rename_with_bad_token_or_id() {
    let svc = service();
    let mut store = Store::default();
    let alice = store.register(&svc, "alice");
    store.calls.clear();
    let forged = Request::UpdateUser { id: alice.id, token: "a.b.c".to_string(), name: "x".to_string() };
    assert_eq!(store.run(&svc, forged), Err(Failure::Unauthorized));
    let negative = Request::UpdateUser { id: -1, token: alice.jwt.clone(), name: "x".to_string() };
    assert_eq!(store.run(&svc, negative), Err(Failure::Validation));
    assert!(store.calls.is_empty());
}

#[test]
fn a_looser_lookup_cannot_authorize() {
    let svc = service();
    let alice = User { id: 1, name: "alice".to_string(), jwt: "tok-a".to_string(), balance: 0 };
    let stage = Stage::AuthorizeRename { id: 1, token: "tok-b".to_string(), name: "x".to_string() };
    assert_eq!(
        svc.resume(stage, StoreReply::Users(Some(alice))),
        Step::Done(Err(Failure::Unauthorized))
    );
}

#[test]
fn owner_creates_a_listing() {
    let svc = service();
    let mut store = Store::default();
    let alice = store.register(&svc, "alice");
    let request = Request::CreateArticle { token: alice.jwt.clone(), draft: cap_draft(alice.id) };
    match store.run(&svc, request) {
        Ok(Outcome::Article(a)) => {
            assert_eq!(a.owner_id, alice.id);
            assert_eq!(a.article_type, ArticleType::Cap);
            assert_eq!(a.size, ArticleSize::Medium);
        }
        other => panic!("unexpected answer {:?}", other),
    }
    assert_eq!(store.articles.len(), 1);
}

#[test]
fn listing_for_another_owner_is_unauthorized() {
    let svc = service();
    let mut store = Store::default();
    let alice = store.register(&svc, "alice");
    let bob = store.register(&svc, "bob");
    assert_eq!(svc.jwt.validate(bob.jwt.clone(), NOW), Ok("bob".to_string()));
    let request = Request::CreateArticle { token: bob.jwt.clone(), draft: cap_draft(alice.id) };
    assert_eq!(store.run(&svc, request), Err(Failure::Unauthorized));
    assert!(store.articles.is_empty());
}

#[test]
fn listing_with_unknown_size_is_a_validation_failure() {
    let svc = service();
    let mut store = Store::default();
    let alice = store.register(&svc, "alice");
    let mut draft = cap_draft(alice.id);
    draft.size = "enormous".to_string();
    store.calls.clear();
    let request = Request::CreateArticle { token: alice.jwt.clone(), draft };
    assert_eq!(store.run(&svc, request), Err(Failure::Validation));
    assert!(store.calls.is_empty());
}

#[test]
fn listing_with_bad_token_is_unauthorized() {
    let svc = service();
    let mut store = Store::default();
    let alice = store.register(&svc, "alice");
    store.calls.clear();
    let mut token = alice.jwt.clone();
    token.push('x');
    let request = Request::CreateArticle { token, draft: cap_draft(alice.id) };
    assert_eq!(store.run(&svc, request), Err(Failure::Unauthorized));
    assert!(store.calls.is_empty());
}

#[test]
fn token_on_file_that_no_longer_verifies_is_unauthorized() {
    let jwt = Jwt::new(JwtConfig { secret: "s3cret".to_string(), expiration: 1_000_000 });
    let svc = Service::new(jwt, BASE_URL.to_string());
    let token = svc.jwt.generate("alice".to_string()).unwrap();
    let request = |token: &String| Request::UpdateUser { id: 1, token: token.clone(), name: "x".to_string() };
    assert_eq!(
        svc.start(request(&token), 1_000_000),
        Step::Call(
            Stage::AuthorizeRename { id: 1, token: token.clone(), name: "x".to_string() },
            StoreCall::UserByIdAndToken(1, token.clone())
        )
    );
    assert_eq!(svc.start(request(&token), NOW), Step::Done(Err(Failure::Unauthorized)));
}

#[test]
fn re_registering_a_name_whose_token_is_on_file_is_rejected() {
    let svc = service();
    let mut store = Store::default();
    let first = store.register(&svc, "alice");
    let rename = Request::UpdateUser { id: first.id, token: first.jwt.clone(), name: "alicia".to_string() };
    assert!(store.run(&svc, rename).is_ok());
    store.calls.clear();
    assert_eq!(
        store.run(&svc, Request::CreateUser { name: "alice".to_string() }),
        Err(Failure::Validation)
    );
    assert_eq!(
        store.calls,
        vec![
            StoreCall::UserByName("alice".to_string()),
            StoreCall::UserByToken(first.jwt.clone()),
        ]
    );
    assert_eq!(store.users.len(), 1);
}

#[test]
fn registration_checks_the_issued_token_before_inserting() {
    let svc = service();
    let mut store = Store::default();
    let alice = store.register(&svc, "alice");
    assert_eq!(
        store.calls,
        vec![
            StoreCall::UserByName("alice".to_string()),
            StoreCall::UserByToken(alice.jwt.clone()),
            StoreCall::InsertUser(ichiba::NewUser { name: "alice".to_string(), jwt: alice.jwt.clone() }),
        ]
    );
}

#[test]
fn listing_with_negative_owner_is_a_validation_failure() {
    let svc = service();
    let mut store = Store::default();
    let alice = store.register(&svc, "alice");
    store.calls.clear();
    let request = Request::CreateArticle { token: alice.jwt.clone(), draft: cap_draft(-1) };
    assert_eq!(store.run(&svc, request), Err(Failure::Validation));
    let forged = Request::CreateArticle { token: "a.b.c".to_string(), draft: cap_draft(-1) };
    assert_eq!(store.run(&svc, forged), Err(Failure::Validation));
    assert!(store.calls.is_empty());
}
