use image_service::clock::{Timestamp, NANOS_PER_SECOND, SECONDS_PER_DAY};
use image_service::config;
use image_service::models::image::{Image, ImageGalleryResponse, ImageResponse, ImageWithUser};
use image_service::models::user::{User, UserResponse, UserSession, UserWithImages};
use image_service::repositories::exchange::{ImageError, StoreFault};
use image_service::repositories::sql;

fn at(secs: i64, nanos: u32) -> Timestamp {
    Timestamp { secs, nanos }
}

#[test]
fn timestamp_refuses_a_full_second_of_nanos() {
    assert_eq!(Timestamp::new(5, 999_999_999), Some(at(5, 999_999_999)));
    assert_eq!(Timestamp::new(5, 1_000_000_000), None);
    assert_eq!(Timestamp::new(-5, 0), Some(at(-5, 0)));
    assert_eq!(NANOS_PER_SECOND, 1_000_000_000);
}

#[test]
fn timestamps_are_ordered_by_seconds_then_nanos() {
    assert!(at(1, 999).is_before(&at(2, 0)));
    assert!(at(2, 0).is_before(&at(2, 1)));
    assert!(!at(2, 1).is_before(&at(2, 1)));
    assert!(!at(2, 1).is_before(&at(2, 0)));
    assert!(at(-1, 5).is_before(&at(0, 0)));
}

#[test]
fn one_day_later_adds_86400_seconds() {
    assert_eq!(SECONDS_PER_DAY, 86_400);
    assert_eq!(at(1_700_000_000, 42).one_day_later(), Some(at(1_700_086_400, 42)));
    assert_eq!(at(-86_400, 0).one_day_later(), Some(at(0, 0)));
    assert_eq!(at(i64::MAX - 86_400, 1).one_day_later(), Some(at(i64::MAX, 1)));
    assert_eq!(at(i64::MAX - 86_399, 1).one_day_later(), None);
    assert_eq!(at(i64::MAX, 0).one_day_later(), None);
}

#[test]
fn session_is_live_strictly_before_its_end() {
    let session = UserSession::new(3, at(100, 0));
    assert_eq!(session, UserSession { user_id: 3, expires_at: at(100, 0) });
    assert!(session.is_live_at(&at(99, 999_999_999)));
    assert!(!session.is_live_at(&at(100, 0)));
    assert!(!session.is_live_at(&at(101, 0)));
}

fn image() -> Image {
    Image {
        id: 11,
        url: "s3://gallery/images/u/a.png".to_string(),
        created_at: at(10, 0),
        updated_at: at(20, 0),
        user_id: 3,
    }
}

#[test]
fn image_response_drops_the_owner() {
    let expected = ImageResponse {
        id: 11,
        url: "s3://gallery/images/u/a.png".to_string(),
        created_at: at(10, 0),
        updated_at: at(20, 0),
    };
    assert_eq!(ImageResponse::from(&image()), expected);
    assert_eq!(ImageResponse::from(image()), expected);
}

#[test]
fn user_response_drops_hash_and_timestamps() {
    let user = User {
        id: 3,
        username: "carol".to_string(),
        password: "$argon2id$...".to_string(),
        email: "carol@example.org".to_string(),
        created_at: at(1, 0),
        updated_at: at(2, 0),
    };
    let expected = UserResponse {
        id: 3,
        username: "carol".to_string(),
        email: "carol@example.org".to_string(),
    };
    assert_eq!(UserResponse::from(&user), expected);
    assert_eq!(UserResponse::from(user), expected);
}

#[test]
fn gallery_shapes_hold_what_they_are_given() {
    let user = UserResponse { id: 3, username: "c".to_string(), email: "c@x".to_string() };
    let with_user = ImageWithUser { image: ImageResponse::from(image()), user: user.clone() };
    assert_eq!(with_user.image.id, 11);
    assert_eq!(with_user.user, user);
    let gallery = ImageGalleryResponse {
        user: user.clone(),
        images: vec![ImageResponse::from(image())],
    };
    assert_eq!(gallery.clone().images.len(), 1);
    let with_images = UserWithImages { user, image_urls: vec![image().url] };
    assert_eq!(with_images.image_urls, vec!["s3://gallery/images/u/a.png".to_string()]);
}

#[test]
fn image_errors_compare_by_kind_and_text() {
    assert_eq!(ImageError::NotFound, ImageError::NotFound);
    assert_ne!(
        ImageError::StorageFailure("x".to_string()),
        ImageError::StoreFailure("x".to_string())
    );
    assert_ne!(
        ImageError::ConstraintViolation("a".to_string()),
        ImageError::ConstraintViolation("b".to_string())
    );
}

#[test]
fn image_error_messages_are_the_stores_own_account() {
    assert_eq!(ImageError::NotFound.message(), "Image not found");
    assert_eq!(ImageError::StorageFailure("slow down".to_string()).message(), "slow down");
    assert_eq!(ImageError::StoreFailure("pool closed".to_string()).message(), "pool closed");
    assert_eq!(
        ImageError::ConstraintViolation("duplicate key".to_string()).message(),
        "duplicate key"
    );
}

#[test]
fn pool_and_session_settings() {
    assert_eq!(config::POOL_MAX_CONNECTIONS, 10);
    assert_eq!(config::POOL_MIN_CONNECTIONS, 1);
    assert_eq!(config::POOL_ACQUIRE_TIMEOUT_SECS, 10);
    assert_eq!(config::POOL_IDLE_TIMEOUT_SECS, 60);
    assert_eq!(config::POOL_MAX_LIFETIME_SECS, 1800);
    assert_eq!(config::SESSION_POOL_SIZE, 10);
    assert_eq!(config::SESSION_IDLE_MINUTES, 10);
    assert!(!config::SESSION_COOKIE_SECURE);
}

#[test]
fn image_statements_are_scoped_by_owner() {
    assert_eq!(sql::SELECT_IMAGE, "SELECT * FROM images WHERE user_id = $1 AND id = $2");
    assert_eq!(sql::DELETE_IMAGE, "DELETE FROM images WHERE user_id = $1 AND id = $2");
    assert_eq!(sql::SELECT_IMAGES_OF_OWNER, "SELECT * FROM images WHERE user_id = $1");
    assert_eq!(sql::INSERT_IMAGE, "INSERT INTO images (url, user_id) VALUES ($1, $2) RETURNING *");
    assert!(sql::UPDATE_IMAGE.contains("WHERE user_id = $2 AND id = $3"));
    assert!(sql::UPDATE_IMAGE.contains("updated_at = now()"));
    assert_eq!(sql::SELECT_USER_BY_ID, "SELECT * FROM users WHERE id = $1");
    assert_eq!(sql::SELECT_USER_BY_EMAIL, "SELECT * FROM users WHERE email = $1");
    assert_eq!(
        sql::INSERT_USER,
        "INSERT INTO users (username, email, password) VALUES ($1, $2, $3) RETURNING *"
    );
}

#[test]
fn a_leap_second_is_read_as_the_last_nanosecond() {
    assert_eq!(Timestamp::clamped(59, 999_999_999), at(59, 999_999_999));
    assert_eq!(Timestamp::clamped(59, 1_000_000_000), at(59, 999_999_999));
    assert_eq!(Timestamp::clamped(59, 1_999_999_999), at(59, 999_999_999));
    assert_eq!(Timestamp::clamped(-1, 0), at(-1, 0));
}

#[test]
fn store_failures_are_classified_by_their_kind() {
    for fault in [StoreFault::Unique, StoreFault::ForeignKey, StoreFault::NotNull, StoreFault::Check] {
        assert_eq!(
            ImageError::from_store(fault, "refused".to_string()),
            ImageError::ConstraintViolation("refused".to_string())
        );
    }
    assert_eq!(
        ImageError::from_store(StoreFault::Other, "connection reset".to_string()),
        ImageError::StoreFailure("connection reset".to_string())
    );
}
