use user_repository::create_user::{CreateUser, CustomData as PayloadData};
use user_repository::error::Error;
use user_repository::repository::MemoryRepository;
use user_repository::user::{CustomData, Date, User};

const KNOWN_ID: &str = "71802ecd-4eb3-4381-af7e-f737e3a35d5d";

fn payload(name: &str, email: &str) -> CreateUser {
    CreateUser {
        name: name.to_string(),
        email: email.to_string(),
        birth_date: Date { year: 1977, month: 3, day: 10 },
        custom_data: PayloadData { random: 1 },
        created_at: Some(5),
        updated_at: Some(6),
    }
}

fn record(id: u128, name: &str, email: &str, created_at: i64) -> User {
    User {
        id,
        name: name.to_string(),
        email: email.to_string(),
        birth_date: Date { year: 1977, month: 3, day: 10 },
        custom_data: CustomData { random: 1 },
        created_at: Some(created_at),
        updated_at: None,
    }
}

#[test]
fn empty_store_lists_nothing() {
    let repo = MemoryRepository::default();
    assert_eq!(repo.get_all(), Ok(vec![]));
}

#[test]
fn create_assigns_id_and_creation_time() {
    let mut repo = MemoryRepository::default();
    let before = chrono::Utc::now().timestamp_micros();
    let user = repo.create_user(&payload("Meu nome", "teste@teste.com")).unwrap();
    let after = chrono::Utc::now().timestamp_micros();

    assert_eq!(user.name, "Meu nome");
    assert_eq!(user.email, "teste@teste.com");
    assert_eq!(user.birth_date, Date { year: 1977, month: 3, day: 10 });
    assert_eq!(user.custom_data, CustomData { random: 1 });
    assert_eq!(user.updated_at, None);
    let created = user.created_at.unwrap();
    assert!(before <= created && created <= after);

    let id = uuid::Uuid::from_u128(user.id);
    assert_eq!(id.get_version_num(), 4);
    assert_eq!(id.get_variant(), uuid::Variant::RFC4122);
    assert_eq!(
        user.id & 0x0000_0000_0000_f000_c000_0000_0000_0000,
        0x0000_0000_0000_4000_8000_0000_0000_0000
    );
}

#[test]
fn create_gives_each_user_another_id() {
    let mut repo = MemoryRepository::default();
    let a = repo.create_user(&payload("a", "a@teste.com")).unwrap();
    let b = repo.create_user(&payload("b", "b@teste.com")).unwrap();
    assert_ne!(a.id, b.id);
    assert_eq!(repo.get_all(), Ok(vec![a, b]));
}

#[test]
fn create_with_given_id_and_time_is_exact() {
    let mut repo = MemoryRepository::default();
    let user = repo.create_user_with(&payload("Meu nome", "teste@teste.com"), 7, 1_000).unwrap();
    assert_eq!(user, record(7, "Meu nome", "teste@teste.com", 1_000));
    assert_eq!(repo.get_all(), Ok(vec![record(7, "Meu nome", "teste@teste.com", 1_000)]));
}

#[test]
fn second_create_with_same_email_is_a_conflict() {
    let mut repo = MemoryRepository::default();
    let first = repo.create_user(&payload("Meu nome", "teste@teste.com"));
    assert!(first.is_ok());
    let second = repo.create_user(&payload("Outro nome", "teste@teste.com"));
    assert_eq!(second, Err(Error::new("This user already exists".to_string(), 400)));
    assert_eq!(repo.get_all(), Ok(vec![first.unwrap()]));
}

#[test]
fn email_is_free_again_after_delete() {
    let mut repo = MemoryRepository::default();
    let first = repo.create_user_with(&payload("a", "teste@teste.com"), 1, 10).unwrap();
    assert!(repo.create_user_with(&payload("b", "teste@teste.com"), 2, 11).is_err());
    assert_eq!(repo.delete_user(&first.id), Ok(1));
    let again = repo.create_user_with(&payload("b", "teste@teste.com"), 2, 12);
    assert_eq!(again, Ok(record(2, "b", "teste@teste.com", 12)));
}

#[test]
fn get_user_of_unknown_id_is_not_found() {
    let mut repo = MemoryRepository::default();
    repo.create_user(&payload("Meu nome", "teste@teste.com")).unwrap();
    let id = uuid::Uuid::parse_str(KNOWN_ID).unwrap().as_u128();
    assert_eq!(repo.get_user(&id), Err(Error::new("Invalid Uuid".to_string(), 404)));
}

#[test]
fn get_user_by_unknown_email_is_not_found() {
    let mut repo = MemoryRepository::default();
    repo.create_user(&payload("Meu nome", "teste@teste.com")).unwrap();
    assert_eq!(
        repo.get_user_by_email(&"outro@teste.com".to_string()),
        Err(Error::new("User not found".to_string(), 404))
    );
}

#[test]
fn created_user_is_found_by_id_and_by_email() {
    let mut repo = MemoryRepository::default();
    repo.create_user(&payload("a", "a@teste.com")).unwrap();
    let user = repo.create_user(&payload("Meu nome", "teste@teste.com")).unwrap();
    repo.create_user(&payload("c", "c@teste.com")).unwrap();
    assert_eq!(repo.get_user(&user.id), Ok(user.clone()));
    assert_eq!(repo.get_user_by_email(&"teste@teste.com".to_string()), Ok(user));
}

#[test]
fn lookup_by_id_takes_the_first_match() {
    let mut repo = MemoryRepository::default();
    repo.create_user_with(&payload("a", "a@teste.com"), 9, 1).unwrap();
    repo.create_user_with(&payload("b", "b@teste.com"), 9, 2).unwrap();
    assert_eq!(repo.get_user(&9), Ok(record(9, "a", "a@teste.com", 1)));
}

#[test]
fn update_keeps_creation_time_and_stamps_update() {
    let mut repo = MemoryRepository::default();
    repo.create_user_with(&payload("a", "a@teste.com"), 1, 100).unwrap();
    repo.create_user_with(&payload("b", "b@teste.com"), 2, 200).unwrap();

    let change = User {
        id: 1,
        name: "novo".to_string(),
        email: "novo@teste.com".to_string(),
        birth_date: Date { year: 1980, month: 1, day: 2 },
        custom_data: CustomData { random: 77 },
        created_at: Some(999),
        updated_at: None,
    };
    let updated = repo.update_user_at(&change, 300).unwrap();
    let expected = User { created_at: Some(100), updated_at: Some(300), ..change };
    assert_eq!(updated, expected);
    assert_eq!(repo.get_user(&1), Ok(expected.clone()));
    assert_eq!(repo.get_all(), Ok(vec![record(2, "b", "b@teste.com", 200), expected]));
}

#[test]
fn update_stamps_the_current_time() {
    let mut repo = MemoryRepository::default();
    let user = repo.create_user(&payload("a", "a@teste.com")).unwrap();
    assert_eq!(user.updated_at, None);
    let before = chrono::Utc::now().timestamp_micros();
    let updated = repo.update_user(&User { name: "b".to_string(), ..user.clone() }).unwrap();
    let after = chrono::Utc::now().timestamp_micros();
    assert_eq!(updated.created_at, user.created_at);
    let stamped = updated.updated_at.unwrap();
    assert!(before <= stamped && stamped <= after);
    assert!(user.created_at.unwrap() <= stamped);
    assert_eq!(updated.name, "b");
}

#[test]
fn update_of_unknown_id_is_not_found() {
    let mut repo = MemoryRepository::default();
    repo.create_user_with(&payload("a", "a@teste.com"), 1, 100).unwrap();
    let r = repo.update_user_at(&record(2, "b", "b@teste.com", 0), 300);
    assert_eq!(r, Err(Error::new("This user does not exist".to_string(), 404)));
    assert_eq!(repo.get_all(), Ok(vec![record(1, "a", "a@teste.com", 100)]));
}

#[test]
fn update_to_the_email_of_another_user_is_a_conflict() {
    let mut repo = MemoryRepository::default();
    repo.create_user_with(&payload("a", "a@teste.com"), 1, 100).unwrap();
    repo.create_user_with(&payload("b", "b@teste.com"), 2, 200).unwrap();
    let r = repo.update_user_at(&record(2, "b", "a@teste.com", 0), 300);
    assert_eq!(r, Err(Error::new("This user email already exists".to_string(), 422)));
    assert_eq!(
        repo.get_all(),
        Ok(vec![record(1, "a", "a@teste.com", 100), record(2, "b", "b@teste.com", 200)])
    );
}

#[test]
fn update_with_own_email_is_no_conflict() {
    let mut repo = MemoryRepository::default();
    repo.create_user_with(&payload("a", "a@teste.com"), 1, 100).unwrap();
    repo.create_user_with(&payload("b", "b@teste.com"), 2, 200).unwrap();
    let r = repo.update_user_at(&record(1, "outro", "a@teste.com", 0), 300);
    assert_eq!(
        r,
        Ok(User { updated_at: Some(300), ..record(1, "outro", "a@teste.com", 100) })
    );
}

#[test]
fn delete_then_get_is_not_found() {
    let mut repo = MemoryRepository::default();
    let user = repo.create_user(&payload("Meu nome", "teste@teste.com")).unwrap();
    assert_eq!(repo.delete_user(&user.id), Ok(user.id));
    assert_eq!(repo.get_user(&user.id), Err(Error::new("Invalid Uuid".to_string(), 404)));
    assert_eq!(
        repo.get_user_by_email(&"teste@teste.com".to_string()),
        Err(Error::new("User not found".to_string(), 404))
    );
    assert_eq!(repo.get_all(), Ok(vec![]));
}

#[test]
fn delete_of_unknown_id_succeeds() {
    let mut repo = MemoryRepository::default();
    repo.create_user_with(&payload("a", "a@teste.com"), 1, 100).unwrap();
    let id = uuid::Uuid::parse_str(KNOWN_ID).unwrap().as_u128();
    assert_eq!(repo.delete_user(&id), Ok(id));
    assert_eq!(repo.delete_user(&id), Ok(id));
    assert_eq!(repo.get_all(), Ok(vec![record(1, "a", "a@teste.com", 100)]));
}

#[test]
fn delete_keeps_the_order_of_the_rest() {
    let mut repo = MemoryRepository::default();
    repo.create_user_with(&payload("a", "a@teste.com"), 1, 100).unwrap();
    repo.create_user_with(&payload("b", "b@teste.com"), 2, 200).unwrap();
    repo.create_user_with(&payload("c", "c@teste.com"), 3, 300).unwrap();
    assert_eq!(repo.delete_user(&2), Ok(2));
    assert_eq!(
        repo.get_all(),
        Ok(vec![record(1, "a", "a@teste.com", 100), record(3, "c", "c@teste.com", 300)])
    );
}

#[test]
fn lock_failure_is_storage_unavailable() {
    assert_eq!(MemoryRepository::lock_failed(), Error::new("Get user error".to_string(), 406));
}
