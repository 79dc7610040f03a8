use tasks_authenticated::context::JwtState;
use tasks_authenticated::middlewares::auth::{authenticate, bearer_token, bearer_value, AuthState};
use tasks_authenticated::middlewares::AuthError;
use tasks_authenticated::models::auth::{LoginResponse, LoginUser, RegisterUser};
use tasks_authenticated::models::tasks::{NewTask, TaskResponse, UpdateTask};
use tasks_authenticated::repositories::script::{
    answer_login, creation_error, judge_password, log_in, registration_error, retain_owned,
    Output, Script, Step, EMAIL_KEY, USERNAME_KEY,
};
use tasks_authenticated::repositories::store::{Command, Reply, Statement, Timestamp};
use tasks_authenticated::repositories::tasks::Task;
use tasks_authenticated::repositories::users::User;
use tasks_authenticated::repositories::{ModelError, StorageError};
use tasks_authenticated::text::{or_blank, same_text};
use tasks_authenticated::trusted::password::PasswordCheck;
use tasks_authenticated::trusted::jwt::TokenFault;
use rsa::pkcs8::{EncodePrivateKey, EncodePublicKey, LineEnding};
use rsa::rand_core::{CryptoRng, RngCore};
use rsa::{RsaPrivateKey, RsaPublicKey};
use std::sync::OnceLock;

/// A stream of numbers that follows from its seed alone. It is no source
/// of secrets: the keys made from it serve these tests and nothing else.
struct Seeded(u64);

impl RngCore for Seeded {
    fn next_u32(&mut self) -> u32 {
        (self.next_u64() >> 32) as u32
    }

    fn next_u64(&mut self) -> u64 {
        self.0 = self.0.wrapping_add(0x9e37_79b9_7f4a_7c15);
        let mut z = self.0;
        z = (z ^ (z >> 30)).wrapping_mul(0xbf58_476d_1ce4_e5b9);
        z = (z ^ (z >> 27)).wrapping_mul(0x94d0_49bb_1331_11eb);
        z ^ (z >> 31)
    }

    fn fill_bytes(&mut self, dest: &mut [u8]) {
        for chunk in dest.chunks_mut(8) {
            let bytes = self.next_u64().to_le_bytes();
            chunk.copy_from_slice(&bytes[..chunk.len()]);
        }
    }

    fn try_fill_bytes(&mut self, dest: &mut [u8]) -> Result<(), rsa::rand_core::Error> {
        self.fill_bytes(dest);
        Ok(())
    }
}

impl CryptoRng for Seeded {}

/// The RSA key pair that follows from the seed, as PEM text: the private
/// key, then the public key.
fn key_pair(seed: u64) -> (String, String) {
    let private = RsaPrivateKey::new(&mut Seeded(seed), 2048).unwrap();
    let public = RsaPublicKey::from(&private);
    (
        private.to_pkcs8_pem(LineEnding::LF).unwrap().to_string(),
        public.to_public_key_pem(LineEnding::LF).unwrap(),
    )
}

/// The seed of the key pair of the service under test.
const OWN_SEED: u64 = 3;

static OWN_PAIR: OnceLock<(String, String)> = OnceLock::new();

fn private_key() -> &'static str {
    &OWN_PAIR.get_or_init(|| key_pair(OWN_SEED)).0
}

fn public_key() -> &'static str {
    &OWN_PAIR.get_or_init(|| key_pair(OWN_SEED)).1
}

const MOMENT: Timestamp = Timestamp { seconds: 1_431_648_000, nanos: 0, offset: 0 };

/// Tables in memory that answer commands as a database would.
struct MemoryStore {
    users: Vec<User>,
    tasks: Vec<Task>,
    saved: Option<(Vec<User>, Vec<Task>)>,
    next_id: i32,
    log: Vec<Command>,
}

fn broken(constraint: &str, foreign_key_violation: bool) -> StorageError {
    StorageError {
        constraint: Some(constraint.to_string()),
        foreign_key_violation,
        message: format!("violates constraint {}", constraint),
    }
}

impl MemoryStore {
    fn new() -> MemoryStore {
        MemoryStore { users: vec![], tasks: vec![], saved: None, next_id: 1, log: vec![] }
    }

    fn fresh(&mut self) -> (i32, u128) {
        let id = self.next_id;
        self.next_id += 1;
        (id, 0x550e8400_e29b_41d4_a716_446655440000 + id as u128)
    }

    fn execute(&mut self, statement: &Statement) -> Result<Reply, StorageError> {
        match statement {
            Statement::InsertUser { username, email, password } => {
                if self.users.iter().any(|u| &u.username == username) {
                    return Err(broken("users_username_key", false));
                }
                if self.users.iter().any(|u| &u.email == email) {
                    return Err(broken("users_email_key", false));
                }
                let (id, pid) = self.fresh();
                let user = User {
                    id,
                    pid,
                    username: username.clone(),
                    email: email.clone(),
                    password: password.clone(),
                    created_at: MOMENT,
                    updated_at: MOMENT,
                };
                self.users.push(user.clone());
                Ok(Reply::User(Some(user)))
            }
            Statement::SelectUserByEmail { email } => {
                Ok(Reply::User(self.users.iter().find(|u| &u.email == email).cloned()))
            }
            Statement::SelectUserByUsername { username } => {
                Ok(Reply::User(self.users.iter().find(|u| &u.username == username).cloned()))
            }
            Statement::SelectUserByPid { pid } => {
                Ok(Reply::User(self.users.iter().find(|u| u.pid == *pid).cloned()))
            }
            Statement::InsertTask { user_pid, title, done } => {
                if !self.users.iter().any(|u| u.pid == *user_pid) {
                    return Err(broken("tasks_user_pid_fkey", true));
                }
                let (id, pid) = self.fresh();
                let task = Task {
                    id,
                    pid,
                    user_pid: *user_pid,
                    title: title.clone(),
                    done: *done,
                    created_at: MOMENT,
                    updated_at: MOMENT,
                };
                self.tasks.push(task.clone());
                Ok(Reply::Task(Some(task)))
            }
            Statement::SelectTasksByOwner { user_pid } => Ok(Reply::Tasks(
                self.tasks.iter().filter(|t| t.user_pid == *user_pid).cloned().collect(),
            )),
            Statement::SelectTaskByIdAndOwner { id, user_pid } => Ok(Reply::Task(
                self.tasks.iter().find(|t| t.id == *id && t.user_pid == *user_pid).cloned(),
            )),
            Statement::SelectTaskById { id } => {
                Ok(Reply::Task(self.tasks.iter().find(|t| t.id == *id).cloned()))
            }
            Statement::DeleteTaskById { id } => {
                let before = self.tasks.len();
                self.tasks.retain(|t| t.id != *id);
                Ok(Reply::Affected((before - self.tasks.len()) as u64))
            }
            Statement::UpdateTask { id, user_pid, title, done, updated_at } => {
                for task in self.tasks.iter_mut() {
                    if task.id == *id && task.user_pid == *user_pid {
                        task.title = title.clone();
                        task.done = *done;
                        task.updated_at = *updated_at;
                        return Ok(Reply::Task(Some(task.clone())));
                    }
                }
                Ok(Reply::Task(None))
            }
        }
    }

    fn run(&mut self, command: &Command) -> Result<Reply, StorageError> {
        self.log.push(command.clone());
        match command {
            Command::Begin => {
                self.saved = Some((self.users.clone(), self.tasks.clone()));
                Ok(Reply::Done)
            }
            Command::Commit => {
                self.saved = None;
                Ok(Reply::Done)
            }
            Command::Rollback => {
                if let Some((users, tasks)) = self.saved.take() {
                    self.users = users;
                    self.tasks = tasks;
                }
                Ok(Reply::Done)
            }
            Command::Execute(statement) => self.execute(statement),
        }
    }

    fn drive(&mut self, mut step: Step) -> Result<Output, ModelError> {
        loop {
            match step {
                Step::Finish(outcome) => return outcome,
                Step::Next(script, command) => {
                    let reply = self.run(&command);
                    step = script.resume(reply);
                }
            }
        }
    }

    fn register(&mut self, username: &str, email: &str, password: &str) -> Result<User, ModelError> {
        let dto = RegisterUser {
            username: username.into(),
            email: email.into(),
            password: password.into(),
            confirm_password: password.into(),
        };
        match self.drive(User::create_with_password(&dto))? {
            Output::User(user) => Ok(user),
            other => panic!("registration ended with {:?}", other),
        }
    }

    fn login(&mut self, email: &str, password: &str, now: u64) -> Result<LoginResponse, ModelError> {
        let dto = LoginUser { email: email.into(), password: password.into() };
        match self.drive(User::login_user_at(&dto, &keys(), now))? {
            Output::Login(response) => Ok(response),
            other => panic!("login ended with {:?}", other),
        }
    }

    fn create(&mut self, owner: u128, title: &str, done: bool) -> Result<Task, ModelError> {
        let params = NewTask { title: title.into(), done };
        match self.drive(Task::create_task(&params, owner))? {
            Output::Task(task) => Ok(task),
            other => panic!("creation ended with {:?}", other),
        }
    }

    fn list(&mut self, owner: u128) -> Vec<Task> {
        match self.drive(Task::find_all(owner)) {
            Ok(Output::Tasks(tasks)) => tasks,
            other => panic!("listing ended with {:?}", other),
        }
    }

    fn read(&mut self, owner: u128, id: i32) -> Result<Task, ModelError> {
        match self.drive(Task::find_by_id(owner, id))? {
            Output::Task(task) => Ok(task),
            other => panic!("read ended with {:?}", other),
        }
    }
}

fn keys() -> JwtState {
    JwtState::new(private_key(), public_key(), 3600).unwrap()
}

fn seed_data(store: &mut MemoryStore) {
    let users = [
        RegisterUser {
            username: "user1".into(),
            email: "user1@mail.com".into(),
            password: "Password".into(),
            confirm_password: "Password".into(),
        },
        RegisterUser {
            username: "user2".into(),
            email: "user2@mail.com".into(),
            password: "Password".into(),
            confirm_password: "Password".into(),
        },
    ];

    for user in users {
        store.drive(User::create_with_password(&user)).unwrap();
    }
}

fn names(log: &[Command]) -> Vec<&'static str> {
    log.iter()
        .map(|command| match command {
            Command::Begin => "begin",
            Command::Commit => "commit",
            Command::Rollback => "rollback",
            Command::Execute(statement) => {
                if statement.writes() {
                    "write"
                } else {
                    "read"
                }
            }
        })
        .collect()
}

#[test]
fn can_create_new_user() {
    let mut store = MemoryStore::new();

    let params = RegisterUser {
        username: "example".into(),
        email: "example@mail.com".into(),
        password: "Password".into(),
        confirm_password: "Password".into(),
    };

    let result = store.drive(User::create_with_password(&params));

    assert!(result.is_ok());
}

#[test]
fn can_handle_redundant_email() {
    let mut store = MemoryStore::new();
    seed_data(&mut store);

    let params = RegisterUser {
        username: "testOne".into(),
        email: "user1@mail.com".into(),
        password: "Password".into(),
        confirm_password: "Password".into(),
    };

    let result = store.drive(User::create_with_password(&params));

    assert!(result.is_err());
}

#[test]
fn can_handle_redundant_username() {
    let mut store = MemoryStore::new();
    seed_data(&mut store);

    let params = RegisterUser {
        username: "user1".into(),
        email: "example@mail.com".into(),
        password: "Password".into(),
        confirm_password: "Password".into(),
    };

    let result = store.drive(User::create_with_password(&params));

    assert!(result.is_err());
}

#[test]
fn can_login_user() {
    let mut store = MemoryStore::new();
    seed_data(&mut store);

    let params = LoginUser { email: "user1@mail.com".into(), password: "Password".into() };

    let auth = keys();
    let result = store.drive(User::login_user(&params, &auth));

    assert!(result.is_ok());
}

#[test]
fn registration_stores_the_hash_and_not_the_password() {
    let mut store = MemoryStore::new();
    let user = store.register("user1", "user1@mail.com", "Password").unwrap();
    assert_eq!(user.username, "user1");
    assert_eq!(user.email, "user1@mail.com");
    assert_ne!(user.password, "Password");
    assert!(user.password.starts_with("$argon2"));
    assert_eq!(store.users, vec![user]);
    assert_eq!(names(&store.log), ["begin", "write", "commit"]);
}

#[test]
fn each_registration_gets_its_own_salt() {
    let mut store = MemoryStore::new();
    let first = store.register("user1", "user1@mail.com", "Password").unwrap();
    let second = store.register("user2", "user2@mail.com", "Password").unwrap();
    assert_ne!(first.password, second.password);
}

#[test]
fn a_second_registration_with_the_email_fails_with_email_exists() {
    let mut store = MemoryStore::new();
    assert!(store.register("user1", "user1@mail.com", "Password").is_ok());
    let before = store.users.clone();
    store.log.clear();
    assert_eq!(
        store.register("testOne", "user1@mail.com", "Password"),
        Err(ModelError::EmailExists)
    );
    assert_eq!(store.users, before);
    assert_eq!(names(&store.log), ["begin", "write", "rollback"]);
}

#[test]
fn a_second_registration_with_the_username_fails_with_username_taken() {
    let mut store = MemoryStore::new();
    assert!(store.register("user1", "user1@mail.com", "Password").is_ok());
    let before = store.users.clone();
    assert_eq!(
        store.register("user1", "example@mail.com", "Password"),
        Err(ModelError::UsernameTaken)
    );
    assert_eq!(store.users, before);
}

#[test]
fn conflicts_are_answered_with_409() {
    assert_eq!(ModelError::EmailExists.response().status, 409);
    assert_eq!(
        ModelError::EmailExists.response().body.message,
        "Email already registered to an account"
    );
    assert_eq!(ModelError::UsernameTaken.response().status, 409);
    assert_eq!(
        ModelError::UsernameTaken.response().body.message,
        "Username is already taken, please pick another one"
    );
}

#[test]
fn broken_constraints_are_named_after_their_field() {
    assert_eq!(USERNAME_KEY, "users_username_key");
    assert_eq!(EMAIL_KEY, "users_email_key");
    assert_eq!(registration_error(broken("users_username_key", false)), ModelError::UsernameTaken);
    assert_eq!(registration_error(broken("users_email_key", false)), ModelError::EmailExists);
    let other = broken("users_pkey", false);
    assert_eq!(registration_error(other.clone()), ModelError::Sqlx(other));
    let none = StorageError {
        constraint: None,
        foreign_key_violation: false,
        message: "connection reset".to_string(),
    };
    assert_eq!(registration_error(none.clone()), ModelError::Sqlx(none.clone()));
    assert_eq!(ModelError::Sqlx(none).response().status, 500);
}

#[test]
fn a_broken_foreign_key_means_no_such_owner() {
    assert_eq!(creation_error(broken("tasks_user_pid_fkey", true)), ModelError::Unauthorised);
    let other = broken("tasks_pkey", false);
    assert_eq!(creation_error(other.clone()), ModelError::Sqlx(other));
}

#[test]
fn texts_are_the_same_character_by_character() {
    assert!(same_text("", ""));
    assert!(same_text("abc", "abc"));
    assert!(!same_text("abc", "abd"));
    assert!(!same_text("abc", "ab"));
    assert!(!same_text("abc", "ABC"));
}

#[test]
fn looking_up_a_user() {
    let mut store = MemoryStore::new();
    seed_data(&mut store);
    let by_email = store.drive(User::find_by_email("user2@mail.com")).unwrap();
    let by_name = store.drive(User::find_by_username("user2")).unwrap();
    assert_eq!(by_email, by_name);
    let pid = match by_email {
        Output::User(user) => {
            assert_eq!(user.username, "user2");
            user.pid
        }
        other => panic!("lookup ended with {:?}", other),
    };
    assert_eq!(store.drive(User::find_by_pid(pid)), Ok(by_name));
    assert_eq!(
        store.drive(User::find_by_email("nobody@mail.com")),
        Err(ModelError::EntityNotFound)
    );
    assert_eq!(store.drive(User::find_by_username("nobody")), Err(ModelError::EntityNotFound));
    assert_eq!(store.drive(User::find_by_pid(1)), Err(ModelError::EntityNotFound));
}

#[test]
fn login_hands_out_a_token_for_the_public_identifier() {
    let mut store = MemoryStore::new();
    let user = store.register("user1", "user1@mail.com", "Password").unwrap();
    let response = store.login("user1@mail.com", "Password", 1_000).unwrap();
    assert_eq!(response.username, "user1");
    assert_eq!(response.created_at, "15-05-2015 00:00:00");
    let claims = keys().decode(&response.token, 1_000).unwrap();
    assert_eq!(claims.sub, uuid::Uuid::from_u128(user.pid).to_string());
    assert_eq!(claims.iat, 1_000);
    assert_eq!(claims.exp, 4_600);
}

#[test]
fn a_wrong_password_and_an_unknown_email_fail_alike() {
    let mut store = MemoryStore::new();
    seed_data(&mut store);
    let wrong_password = store.login("user1@mail.com", "password", 1_000);
    let unknown_email = store.login("nobody@mail.com", "Password", 1_000);
    assert_eq!(wrong_password, Err(ModelError::Unauthorised));
    assert_eq!(unknown_email, wrong_password);
    let shown = ModelError::Unauthorised.response();
    assert_eq!(shown.status, 401);
    assert_eq!(shown.body.message, "Invalid email or password");
}

#[test]
fn a_stored_hash_that_cannot_be_read_fails_the_login() {
    let user = User {
        id: 1,
        pid: 2,
        username: "user1".into(),
        email: "user1@mail.com".into(),
        password: "plain".into(),
        created_at: MOMENT,
        updated_at: MOMENT,
    };
    let keys = keys();
    let outcome = log_in(user, "plain", &keys.encoding_key, 1_000, 3_600);
    assert!(matches!(outcome, Err(ModelError::ArgonPasswordHash(_))));
    assert_eq!(outcome.unwrap_err().response().status, 500);
}

#[test]
fn a_lifetime_out_of_range_fails_the_login() {
    let mut store = MemoryStore::new();
    let user = store.register("user1", "user1@mail.com", "Password").unwrap();
    let keys = keys();
    assert_eq!(
        log_in(user.clone(), "Password", &keys.encoding_key, u64::MAX, 1),
        Err(ModelError::Jwt(TokenFault::Other))
    );
    assert_eq!(
        log_in(user, "Password", "no key", 1_000, 1),
        Err(ModelError::Jwt(TokenFault::InvalidKeyFormat))
    );
}

#[test]
fn a_storage_failure_ends_the_login() {
    let dto = LoginUser { email: "user1@mail.com".into(), password: "Password".into() };
    let failure = StorageError {
        constraint: None,
        foreign_key_violation: false,
        message: "pool timed out".to_string(),
    };
    match User::login_user_at(&dto, &keys(), 1_000) {
        Step::Next(script, Command::Execute(Statement::SelectUserByEmail { email })) => {
            assert_eq!(email, "user1@mail.com");
            assert_eq!(
                script.resume(Err(failure.clone())),
                Step::Finish(Err(ModelError::Sqlx(failure)))
            );
        }
        other => panic!("login began with {:?}", other),
    }
}

#[test]
fn scenario_of_registration_login_and_tasks() {
    let mut store = MemoryStore::new();
    let user = store.register("user1", "user1@mail.com", "Password").unwrap();
    let stranger = store.register("user2", "user2@mail.com", "Password").unwrap();
    assert_ne!(user.pid, 0);

    let response = store.login("user1@mail.com", "Password", 1_000).unwrap();
    let claims = keys().decode(&response.token, 1_001).unwrap();
    let subject = uuid::Uuid::parse_str(&claims.sub).unwrap().as_u128();
    assert_eq!(subject, user.pid);

    let task = store.create(subject, "buy milk", false).unwrap();
    assert_eq!(task.user_pid, subject);
    assert_eq!(task.title, "buy milk");
    assert!(!task.done);

    assert_eq!(store.list(subject), vec![task.clone()]);
    assert_eq!(store.list(stranger.pid), vec![]);

    assert_eq!(store.read(stranger.pid, task.id), Err(ModelError::EntityNotFound));
    let change = UpdateTask { title: Some("buy bread".into()), done: true };
    assert_eq!(
        store.drive(Task::update_by_id_at(&change, task.id, stranger.pid, MOMENT)),
        Err(ModelError::Unauthorised)
    );
    assert_eq!(
        store.drive(Task::delete_by_id(task.id, stranger.pid)),
        Err(ModelError::Unauthorised)
    );
    assert_eq!(store.read(subject, task.id), Ok(task.clone()));
    assert_eq!(store.tasks, vec![task]);
}

#[test]
fn a_task_needs_an_owner_who_exists() {
    let mut store = MemoryStore::new();
    assert_eq!(store.create(77, "buy milk", false), Err(ModelError::Unauthorised));
    assert_eq!(store.tasks, vec![]);
    assert_eq!(names(&store.log), ["begin", "write", "rollback"]);
}

#[test]
fn a_task_is_created_inside_a_transaction() {
    let mut store = MemoryStore::new();
    let user = store.register("user1", "user1@mail.com", "Password").unwrap();
    store.log.clear();
    let task = store.create(user.pid, "buy milk", true).unwrap();
    assert!(task.done);
    assert_eq!(names(&store.log), ["begin", "write", "commit"]);
    assert_eq!(
        store.log[1],
        Command::Execute(Statement::InsertTask {
            user_pid: user.pid,
            title: "buy milk".into(),
            done: true
        })
    );
}

#[test]
fn a_stranger_cannot_update_and_the_row_stays() {
    let mut store = MemoryStore::new();
    seed_data(&mut store);
    let (owner, stranger) = (store.users[0].pid, store.users[1].pid);
    let task = store.create(owner, "buy milk", false).unwrap();
    store.log.clear();
    let change = UpdateTask { title: Some("sell milk".into()), done: true };
    assert_eq!(
        store.drive(Task::update_by_id_at(&change, task.id, stranger, MOMENT)),
        Err(ModelError::Unauthorised)
    );
    assert_eq!(names(&store.log), ["begin", "read", "rollback"]);
    assert_eq!(store.read(owner, task.id), Ok(task));
}

#[test]
fn a_stranger_cannot_delete_and_the_row_stays() {
    let mut store = MemoryStore::new();
    seed_data(&mut store);
    let (owner, stranger) = (store.users[0].pid, store.users[1].pid);
    let task = store.create(owner, "buy milk", false).unwrap();
    store.log.clear();
    assert_eq!(store.drive(Task::delete_by_id(task.id, stranger)), Err(ModelError::Unauthorised));
    assert_eq!(names(&store.log), ["begin", "read", "rollback"]);
    assert_eq!(store.read(owner, task.id), Ok(task));
}

#[test]
fn deleting_what_is_not_there_finds_nothing() {
    let mut store = MemoryStore::new();
    seed_data(&mut store);
    let owner = store.users[0].pid;
    store.log.clear();
    assert_eq!(store.drive(Task::delete_by_id(41, owner)), Err(ModelError::EntityNotFound));
    assert_eq!(names(&store.log), ["begin", "read", "rollback"]);
    assert_eq!(ModelError::EntityNotFound.response().status, 404);
}

#[test]
fn deleting_twice_succeeds_then_finds_nothing() {
    let mut store = MemoryStore::new();
    seed_data(&mut store);
    let owner = store.users[0].pid;
    let task = store.create(owner, "buy milk", false).unwrap();
    let other = store.create(owner, "buy bread", false).unwrap();
    store.log.clear();
    assert_eq!(store.drive(Task::delete_by_id(task.id, owner)), Ok(Output::Deleted(1)));
    assert_eq!(names(&store.log), ["begin", "read", "write", "commit"]);
    assert_eq!(store.drive(Task::delete_by_id(task.id, owner)), Err(ModelError::EntityNotFound));
    assert_eq!(store.list(owner), vec![other]);
}

#[test]
fn a_delete_of_more_than_one_row_is_rolled_back() {
    let step = Script::DeleteRun.resume(Ok(Reply::Affected(2)));
    let script = match step {
        Step::Next(script, Command::Rollback) => script,
        other => panic!("deletion went on with {:?}", other),
    };
    assert_eq!(script, Script::DeleteRollback);
    let end = script.resume(Ok(Reply::Done));
    assert_eq!(
        end,
        Step::Finish(Err(ModelError::Database("Deleted more than one record".to_string())))
    );
    assert_eq!(
        ModelError::Database("Deleted more than one record".to_string()).response().status,
        500
    );
    assert_eq!(
        Script::DeleteRun.resume(Ok(Reply::Affected(1))),
        Step::Next(Script::DeleteCommit(1), Command::Commit)
    );
    assert_eq!(
        Script::DeleteRun.resume(Ok(Reply::Affected(0))),
        Step::Next(Script::DeleteCommit(0), Command::Commit)
    );
}

#[test]
fn a_failed_rollback_is_reported() {
    let failure = StorageError {
        constraint: None,
        foreign_key_violation: false,
        message: "connection lost".to_string(),
    };
    assert_eq!(
        Script::DeleteRollback.resume(Err(failure.clone())),
        Step::Finish(Err(ModelError::Sqlx(failure.clone())))
    );
    assert_eq!(
        Script::Abort(ModelError::Unauthorised).resume(Err(failure)),
        Step::Finish(Err(ModelError::Unauthorised))
    );
}

#[test]
fn the_owner_updates_title_flag_and_time() {
    let mut store = MemoryStore::new();
    seed_data(&mut store);
    let owner = store.users[0].pid;
    let task = store.create(owner, "buy milk", false).unwrap();
    let later = Timestamp { seconds: 1_431_648_060, nanos: 5, offset: 3_600 };
    store.log.clear();
    let change = UpdateTask { title: Some("buy bread".into()), done: true };
    let updated = store.drive(Task::update_by_id_at(&change, task.id, owner, later)).unwrap();
    let expected = Task { title: "buy bread".into(), done: true, updated_at: later, ..task };
    assert_eq!(updated, Output::Task(expected.clone()));
    assert_eq!(names(&store.log), ["begin", "read", "write", "commit"]);
    assert_eq!(store.read(owner, expected.id), Ok(expected));
}

#[test]
fn an_update_without_a_title_keeps_the_title() {
    let mut store = MemoryStore::new();
    seed_data(&mut store);
    let owner = store.users[0].pid;
    let task = store.create(owner, "buy milk", false).unwrap();
    let change = UpdateTask { title: None, done: true };
    let updated = store.drive(Task::update_by_id_at(&change, task.id, owner, MOMENT)).unwrap();
    assert_eq!(updated, Output::Task(Task { done: true, ..task }));
}

#[test]
fn an_update_of_what_is_not_there_finds_nothing() {
    let mut store = MemoryStore::new();
    seed_data(&mut store);
    let owner = store.users[0].pid;
    let change = UpdateTask { title: None, done: true };
    assert_eq!(
        store.drive(Task::update_by_id_at(&change, 41, owner, MOMENT)),
        Err(ModelError::EntityNotFound)
    );
}

#[test]
fn an_update_is_stamped_by_the_clock() {
    let change = UpdateTask { title: None, done: true };
    match Task::update_by_id(&change, 3, 4) {
        Step::Next(Script::UpdateBegin { id, user_pid, title, done, updated_at }, Command::Begin) => {
            assert_eq!((id, user_pid, title, done), (3, 4, None, true));
            assert!(updated_at.seconds > 1_600_000_000);
            assert_eq!(updated_at.offset, 0);
        }
        other => panic!("update began with {:?}", other),
    }
    assert!(Timestamp::now().unix_seconds() > 1_600_000_000);
}

#[test]
fn seconds_before_the_epoch_count_as_none() {
    assert_eq!(Timestamp { seconds: -5, nanos: 0, offset: 0 }.unix_seconds(), 0);
    assert_eq!(Timestamp { seconds: 0, nanos: 0, offset: 0 }.unix_seconds(), 0);
    assert_eq!(Timestamp { seconds: 12, nanos: 7, offset: 0 }.unix_seconds(), 12);
}

#[test]
fn a_listing_shows_only_the_tasks_of_the_caller() {
    let mut store = MemoryStore::new();
    seed_data(&mut store);
    let (first, second) = (store.users[0].pid, store.users[1].pid);
    let a = store.create(first, "buy milk", false).unwrap();
    let b = store.create(second, "buy bread", false).unwrap();
    let c = store.create(first, "buy cheese", true).unwrap();
    assert_eq!(store.list(first), vec![a.clone(), c.clone()]);
    assert_eq!(store.list(second), vec![b.clone()]);
    assert_eq!(retain_owned(vec![a.clone(), b.clone(), c.clone()], first), vec![a, c]);
    assert_eq!(retain_owned(vec![b], first), vec![]);
    assert_eq!(retain_owned(vec![], first), vec![]);
}

#[test]
fn rows_of_others_that_a_listing_hands_back_are_dropped() {
    let mine = Task {
        id: 1,
        pid: 10,
        user_pid: 5,
        title: "mine".into(),
        done: false,
        created_at: MOMENT,
        updated_at: MOMENT,
    };
    let theirs = Task { id: 2, pid: 11, user_pid: 6, ..mine.clone() };
    let step = Script::FindAll { user_pid: 5 }
        .resume(Ok(Reply::Tasks(vec![theirs.clone(), mine.clone(), theirs.clone()])));
    assert_eq!(step, Step::Finish(Ok(Output::Tasks(vec![mine.clone()]))));
    assert_eq!(
        Script::FindOne { id: 2, user_pid: 5 }.resume(Ok(Reply::Task(Some(theirs)))),
        Step::Finish(Err(ModelError::EntityNotFound))
    );
    assert_eq!(
        Script::FindOne { id: 2, user_pid: 5 }.resume(Ok(Reply::Task(Some(mine.clone())))),
        Step::Finish(Err(ModelError::EntityNotFound))
    );
    assert_eq!(
        Script::FindOne { id: 1, user_pid: 5 }.resume(Ok(Reply::Task(Some(mine.clone())))),
        Step::Finish(Ok(Output::Task(mine)))
    );
}

#[test]
fn fetching_by_id_ignores_the_owner() {
    let mut store = MemoryStore::new();
    seed_data(&mut store);
    let owner = store.users[0].pid;
    let task = store.create(owner, "buy milk", false).unwrap();
    assert_eq!(store.drive(Task::get_by_id(task.id)), Ok(Output::MaybeTask(Some(task))));
    assert_eq!(store.drive(Task::get_by_id(99)), Ok(Output::MaybeTask(None)));
}

#[test]
fn a_reply_out_of_turn_ends_the_operation() {
    let confused = ModelError::Database("The storage layer answered out of turn".to_string());
    assert_eq!(
        Script::DeleteBegin { id: 1, user_pid: 2 }.resume(Ok(Reply::Affected(1))),
        Step::Finish(Err(confused.clone()))
    );
    assert_eq!(
        Script::DeleteFetch { id: 1, user_pid: 2 }.resume(Ok(Reply::Done)),
        Step::Next(Script::Abort(confused.clone()), Command::Rollback)
    );
    assert_eq!(
        Script::FindUser.resume(Ok(Reply::Tasks(vec![]))),
        Step::Finish(Err(confused))
    );
}

#[test]
fn a_write_that_returns_no_row_is_rolled_back() {
    let missing = ModelError::Sqlx(StorageError {
        constraint: None,
        foreign_key_violation: false,
        message: "no rows returned by a query that expected to return at least one row"
            .to_string(),
    });
    assert_eq!(
        Script::UpdateRun.resume(Ok(Reply::Task(None))),
        Step::Next(Script::Abort(missing.clone()), Command::Rollback)
    );
    assert_eq!(
        Script::CreateInsert.resume(Ok(Reply::Task(None))),
        Step::Next(Script::Abort(missing.clone()), Command::Rollback)
    );
    assert_eq!(
        Script::RegisterInsert.resume(Ok(Reply::User(None))),
        Step::Next(Script::Abort(missing), Command::Rollback)
    );
}

#[test]
fn a_transaction_that_cannot_begin_runs_nothing() {
    let failure = StorageError {
        constraint: None,
        foreign_key_violation: false,
        message: "pool timed out".to_string(),
    };
    let change = UpdateTask { title: None, done: false };
    for step in [
        Task::delete_by_id(1, 2),
        Task::update_by_id_at(&change, 1, 2, MOMENT),
        Task::create_task(&NewTask { title: "buy milk".into(), done: false }, 2),
    ] {
        match step {
            Step::Next(script, Command::Begin) => assert_eq!(
                script.resume(Err(failure.clone())),
                Step::Finish(Err(ModelError::Sqlx(failure.clone())))
            ),
            other => panic!("operation began with {:?}", other),
        }
    }
}

#[test]
fn a_commit_that_fails_is_reported() {
    let failure = StorageError {
        constraint: None,
        foreign_key_violation: false,
        message: "connection lost".to_string(),
    };
    assert_eq!(
        Script::DeleteCommit(1).resume(Err(failure.clone())),
        Step::Finish(Err(ModelError::Sqlx(failure)))
    );
    assert_eq!(
        Script::DeleteCommit(1).resume(Ok(Reply::Done)),
        Step::Finish(Ok(Output::Deleted(1)))
    );
}

#[test]
fn statements_carry_their_sql() {
    assert_eq!(
        Statement::InsertUser { username: "".into(), email: "".into(), password: "".into() }.sql(),
        "INSERT INTO users (username, email, password) VALUES ($1, $2, $3) RETURNING *"
    );
    assert_eq!(
        Statement::SelectUserByEmail { email: "".into() }.sql(),
        "SELECT * FROM users WHERE email = $1"
    );
    assert_eq!(
        Statement::SelectUserByUsername { username: "".into() }.sql(),
        "SELECT * FROM users WHERE username = $1"
    );
    assert_eq!(Statement::SelectUserByPid { pid: 0 }.sql(), "SELECT * FROM users WHERE pid = $1");
    assert_eq!(
        Statement::InsertTask { user_pid: 0, title: "".into(), done: false }.sql(),
        "INSERT INTO tasks (user_pid, title, done) VALUES ($1, $2, $3) RETURNING *"
    );
    assert_eq!(
        Statement::SelectTasksByOwner { user_pid: 0 }.sql(),
        "SELECT * FROM tasks WHERE user_pid = $1"
    );
    assert_eq!(
        Statement::SelectTaskByIdAndOwner { id: 0, user_pid: 0 }.sql(),
        "SELECT * FROM tasks WHERE id = $1 and user_pid = $2"
    );
    assert_eq!(Statement::SelectTaskById { id: 0 }.sql(), "SELECT * FROM tasks WHERE id = $1");
    assert_eq!(Statement::DeleteTaskById { id: 0 }.sql(), "DELETE FROM tasks WHERE id = $1");
    assert_eq!(
        Statement::UpdateTask {
            id: 0,
            user_pid: 0,
            title: "".into(),
            done: false,
            updated_at: MOMENT
        }
        .sql(),
        "UPDATE tasks SET title = $3, done = $4, updated_at = $5 WHERE id = $1 AND user_pid = $2 RETURNING *"
    );
    assert!(Statement::DeleteTaskById { id: 0 }.writes());
    assert!(!Statement::SelectTaskById { id: 0 }.writes());
}

#[test]
fn a_moment_is_shown_as_day_month_year_and_time() {
    assert_eq!(MOMENT.show(), "15-05-2015 00:00:00");
    assert_eq!(
        Timestamp { seconds: 1_431_648_000, nanos: 999, offset: 3_600 }.show(),
        "15-05-2015 01:00:00"
    );
    assert_eq!(
        Timestamp { seconds: 1_431_648_000, nanos: 0, offset: -3_600 }.show(),
        "14-05-2015 23:00:00"
    );
    assert_eq!(Timestamp { seconds: 0, nanos: 0, offset: 0 }.show(), "01-01-1970 00:00:00");
}

#[test]
fn a_moment_outside_the_calendar_is_shown_as_nothing() {
    assert_eq!(Timestamp { seconds: i64::MAX, nanos: 0, offset: 0 }.show(), "");
    assert_eq!(Timestamp { seconds: 0, nanos: 0, offset: 86_400 }.show(), "");
}

#[test]
fn a_task_is_shown_with_identifiers_as_text() {
    let task = Task {
        id: 3,
        pid: 0x550e8400_e29b_41d4_a716_446655440000,
        user_pid: 1,
        title: "buy milk".into(),
        done: true,
        created_at: MOMENT,
        updated_at: MOMENT,
    };
    assert_eq!(
        TaskResponse::from(task),
        TaskResponse {
            id: 3,
            pid: "550e8400-e29b-41d4-a716-446655440000".into(),
            user_pid: "00000000-0000-0000-0000-000000000001".into(),
            title: "buy milk".into(),
            done: true,
            created_at: "15-05-2015 00:00:00".into(),
        }
    );
}

#[test]
fn a_login_is_answered_with_token_name_and_day() {
    let user = User {
        id: 1,
        pid: 2,
        username: "user1".into(),
        email: "user1@mail.com".into(),
        password: "hash".into(),
        created_at: MOMENT,
        updated_at: MOMENT,
    };
    assert_eq!(
        LoginResponse::new(&user, "a.b.c"),
        LoginResponse {
            token: "a.b.c".into(),
            username: "user1".into(),
            created_at: "15-05-2015 00:00:00".into(),
        }
    );
}

#[test]
fn a_login_is_answered_with_the_token_in_header_and_cookie() {
    let answer = LoginResponse {
        token: "a.b.c".into(),
        username: "user1".into(),
        created_at: "15-05-2015 00:00:00".into(),
    };
    assert_eq!(
        answer.cookie(3_600),
        "accessToken=a.b.c; HttpOnly; SameSite=Lax; Path=/; Max-Age=3600"
    );
    assert_eq!(
        answer.headers(3_600),
        vec![
            ("Authorization".to_string(), "Bearer a.b.c".to_string()),
            (
                "Set-Cookie".to_string(),
                "accessToken=a.b.c; HttpOnly; SameSite=Lax; Path=/; Max-Age=3600".to_string()
            ),
            ("Content-Type".to_string(), "application/json".to_string()),
        ]
    );
    assert_eq!(
        answer.cookie(u64::MAX),
        format!("accessToken=a.b.c; HttpOnly; SameSite=Lax; Path=/; Max-Age={}", i64::MAX)
    );
}

#[test]
fn the_header_that_a_login_hands_out_authenticates() {
    let mut store = MemoryStore::new();
    let user = store.register("user1", "user1@mail.com", "Password").unwrap();
    let answer = store.login("user1@mail.com", "Password", 1_000).unwrap();
    let value = bearer_value(&answer.token);
    assert_eq!(bearer_token(&value), Some(answer.token.as_str()));
    match authenticate(Some(&value), &keys(), 1_001) {
        AuthState::Authenticated(claims, caller) => {
            assert_eq!(caller.pid(), user.pid);
            assert_eq!(claims.exp, 4_600);
        }
        other => panic!("authentication ended with {:?}", other),
    }
    assert_eq!(
        authenticate(Some(&value), &keys(), 4_600),
        AuthState::Rejected(AuthError::ExpiredToken("Token has expired".to_string()))
    );
}

#[test]
fn identifiers_read_back_from_their_text() {
    let state = keys();
    for pid in [0u128, 1, 0x550e8400_e29b_41d4_a716_446655440000, u128::MAX - 1, u128::MAX] {
        let task = Task {
            id: 1,
            pid,
            user_pid: pid,
            title: "buy milk".into(),
            done: false,
            created_at: MOMENT,
            updated_at: MOMENT,
        };
        let shown = TaskResponse::from(task);
        assert_eq!(shown.pid.len(), 36);
        assert_eq!(shown.pid, shown.user_pid);
        let claims = tasks_authenticated::models::auth::TokenClaims {
            sub: shown.pid,
            iat: 1_000,
            exp: 2_000,
        };
        let value = bearer_value(&state.encode(&claims).unwrap());
        match authenticate(Some(&value), &state, 1_500) {
            AuthState::Authenticated(_, caller) => assert_eq!(caller.pid(), pid),
            other => panic!("authentication ended with {:?}", other),
        }
    }
}

#[test]
fn only_an_accepted_password_lets_a_login_go_on() {
    assert_eq!(judge_password(PasswordCheck::Accepted), Ok(()));
    assert_eq!(judge_password(PasswordCheck::Rejected), Err(ModelError::Unauthorised));
    assert_eq!(
        judge_password(PasswordCheck::Unreadable),
        Err(ModelError::ArgonPasswordHash("The stored password hash cannot be read".to_string()))
    );
}

#[test]
fn a_login_ends_with_the_token_or_the_fault_of_signing() {
    let user = User {
        id: 1,
        pid: 2,
        username: "user1".into(),
        email: "user1@mail.com".into(),
        password: "hash".into(),
        created_at: MOMENT,
        updated_at: MOMENT,
    };
    assert_eq!(
        answer_login(&user, Ok("a.b.c".to_string())),
        Ok(Output::Login(LoginResponse {
            token: "a.b.c".into(),
            username: "user1".into(),
            created_at: "15-05-2015 00:00:00".into(),
        }))
    );
    assert_eq!(
        answer_login(&user, Err(TokenFault::RsaFailedSigning)),
        Err(ModelError::Jwt(TokenFault::RsaFailedSigning))
    );
}

#[test]
fn a_missing_text_is_blank() {
    assert_eq!(or_blank(Some("text".to_string())), "text");
    assert_eq!(or_blank(None), "");
}

#[test]
fn a_reading_of_the_clock_is_a_moment_at_greenwich() {
    assert_eq!(
        Timestamp::at_greenwich(1_431_648_000, 7),
        Timestamp { seconds: 1_431_648_000, nanos: 7, offset: 0 }
    );
    assert_eq!(Timestamp::at_greenwich(-1, 0), Timestamp { seconds: -1, nanos: 0, offset: 0 });
    assert_eq!(Timestamp::at_greenwich(1_431_648_000, 0).show(), "15-05-2015 00:00:00");
    let now = Timestamp::now();
    assert_eq!(now.offset, 0);
    assert_eq!(now, Timestamp::at_greenwich(now.seconds, now.nanos));
}
