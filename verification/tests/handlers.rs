use user_repository::create_user::{CreateUser, CustomData as OtherCustomData};
use user_repository::error::Error;
use user_repository::user::{create_test_user, CustomData, Date, User};
use user_repository::v1::users::{
    delete, get, get_all, post, put, Body, BAD_GATEWAY, CREATED, NOT_FOUND, NO_CONTENT, OK,
    UNPROCESSABLE_ENTITY,
};

fn create_test_user_request(name: String, birth_date_ymd: (i32, u32, u32)) -> CreateUser {
    let (year, month, day) = birth_date_ymd;
    CreateUser {
        name,
        email: "teste@teste.com".to_string(),
        birth_date: Date::from_ymd_opt(year, month, day).unwrap(),
        custom_data: OtherCustomData { random: 1 },
        created_at: Some(chrono::Utc::now().timestamp_micros()),
        updated_at: None,
    }
}

#[test]
fn get_all_with_success() {
    let user_id = uuid::Uuid::new_v4().as_u128();
    let user_name = "Meu nome";

    let users = vec![create_test_user(user_id, user_name.to_string(), (1977, 03, 10))];
    let result = get_all(Ok(users));
    assert_eq!(result.status, OK);
    assert_eq!(result.status, 200);
    match result.body {
        Body::Users(users) => {
            assert_eq!(users.len(), 1);
            assert_eq!(users[0].name, user_name);
        }
        other => panic!("unexpected body {:?}", other),
    }
}

#[test]
fn get_all_with_error() {
    let result = get_all(Err(Error::new("error".to_string(), 502)));
    assert_eq!(result.status, BAD_GATEWAY);
    assert_eq!(result.status, 502);
    assert_eq!(result.body, Body::Error(Error::new("error".to_string(), 502)));
}

#[test]
fn get_user_with_success() {
    let user_id = uuid::Uuid::new_v4().as_u128();
    let user_name = "Meu nome";

    let user = create_test_user(user_id, user_name.to_string(), (1977, 03, 10));
    let result = get(Ok(user.clone()));

    assert_eq!(result.status, OK);
    assert_eq!(result.body, Body::User(user));
}

#[test]
fn get_user_with_error() {
    let user_id = uuid::Uuid::parse_str("71802ecd-4eb3-4381-af7e-f737e3a35d5d");
    assert!(user_id.is_ok());
    let res = get(Err(Error::new("error".to_string(), 404)));
    assert_eq!(res.status, NOT_FOUND);
    assert_eq!(res.status, 404);
}

#[test]
fn create_with_success() {
    let user_id = uuid::Uuid::new_v4().as_u128();
    let user_name = "Meu nome";
    let create_user = create_test_user_request(user_name.to_string(), (1977, 03, 10));
    assert_eq!(create_user.name, user_name);

    let new_user = create_test_user(user_id, user_name.to_string(), (1977, 03, 10));
    let result = post(Ok(new_user));

    assert_eq!(result.status, CREATED);
    assert_eq!(result.status, 201);
}

#[test]
fn create_with_error() {
    let user_name = "Meu nome";
    let create_user = create_test_user_request(user_name.to_string(), (1977, 03, 10));
    assert_eq!(create_user.birth_date, Date { year: 1977, month: 3, day: 10 });

    let result = post(Err(Error::new("error".to_string(), 422)));
    assert_eq!(result.status, UNPROCESSABLE_ENTITY);
    assert_eq!(result.status, 422);
}

#[test]
fn update_with_success() {
    let user_id = uuid::Uuid::new_v4().as_u128();
    let user_name = "Meu nome";
    let new_user = create_test_user(user_id, user_name.to_string(), (1977, 03, 10));

    let result = put(Ok(new_user.to_owned()));
    assert_eq!(result.status, OK);
    assert_eq!(result.body, Body::User(new_user));
}

#[test]
fn update_with_error() {
    let user_id = uuid::Uuid::new_v4().as_u128();
    let user_name = "Meu nome";
    let new_user = create_test_user(user_id, user_name.to_string(), (1977, 03, 10));
    assert_eq!(new_user.id, user_id);

    let result = put(Err(Error::new("error".to_string(), 422)));
    assert_eq!(result.status, UNPROCESSABLE_ENTITY);
}

#[test]
fn delete_with_success() {
    let user_id = uuid::Uuid::new_v4().as_u128();

    let result = delete(Ok(user_id.to_owned()));
    assert_eq!(result.status, NO_CONTENT);
    assert_eq!(result.status, 204);
    assert_eq!(result.body, Body::Empty);
}

#[test]
fn delete_with_error() {
    let result = delete(Err(Error::new("error".to_string(), 422)));
    assert_eq!(result.status, NOT_FOUND);
    assert_eq!(result.body, Body::Error(Error::new("error".to_string(), 422)));
}

#[test]
fn test_user_has_the_fixed_fields() {
    let before = chrono::Utc::now().timestamp_micros();
    let user = create_test_user(42, "Meu nome".to_string(), (1977, 3, 10));
    let after = chrono::Utc::now().timestamp_micros();
    assert_eq!(
        User { created_at: None, ..user.clone() },
        User {
            id: 42,
            email: "teste@teste.com".to_string(),
            name: "Meu nome".to_string(),
            birth_date: Date { year: 1977, month: 3, day: 10 },
            custom_data: CustomData { random: 1 },
            created_at: None,
            updated_at: None,
        }
    );
    let created = user.created_at.unwrap();
    assert!(before <= created && created <= after);
}

#[test]
fn error_new_keeps_message_and_status() {
    let e = Error::new("Invalid Uuid".to_string(), 404);
    assert_eq!(e.message, "Invalid Uuid");
    assert_eq!(e.status, 404);
    assert_eq!(e.clone(), e);
}

#[test]
fn dates_follow_the_calendar() {
    assert_eq!(Date::from_ymd_opt(1977, 3, 10), Some(Date { year: 1977, month: 3, day: 10 }));
    assert_eq!(Date::from_ymd_opt(2024, 2, 29), Some(Date { year: 2024, month: 2, day: 29 }));
    assert_eq!(Date::from_ymd_opt(2023, 2, 29), None);
    assert_eq!(Date::from_ymd_opt(1900, 2, 29), None);
    assert_eq!(Date::from_ymd_opt(2000, 2, 29), Some(Date { year: 2000, month: 2, day: 29 }));
    assert_eq!(Date::from_ymd_opt(-4, 2, 29), Some(Date { year: -4, month: 2, day: 29 }));
    assert_eq!(Date::from_ymd_opt(2023, 4, 31), None);
    assert_eq!(Date::from_ymd_opt(2023, 4, 30), Some(Date { year: 2023, month: 4, day: 30 }));
    assert_eq!(Date::from_ymd_opt(2015, 0, 14), None);
    assert_eq!(Date::from_ymd_opt(2015, 13, 1), None);
    assert_eq!(Date::from_ymd_opt(2015, 1, 0), None);
    assert_eq!(Date::from_ymd_opt(2015, 12, 31), Some(Date { year: 2015, month: 12, day: 31 }));
    assert_eq!(Date::from_ymd_opt(2015, 12, 32), None);
    assert!(Date::from_ymd_opt(262142, 12, 31).is_some());
    assert_eq!(Date::from_ymd_opt(262143, 1, 1), None);
    assert!(Date::from_ymd_opt(-262143, 1, 1).is_some());
    assert_eq!(Date::from_ymd_opt(-262144, 12, 31), None);
    assert_eq!(Date::from_ymd_opt(400000, 1, 1), None);
}
