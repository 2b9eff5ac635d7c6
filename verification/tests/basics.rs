use ftp_rustified::ftp_config::FtpConfig;
use ftp_rustified::ftp_response::Response;
use ftp_rustified::ftp_response_code::ResponseCode;
use ftp_rustified::ftp_user::FtpUser;

#[test]
fn test_ftp_config() {
    let config = FtpConfig {
        port: 2001,
        addr: "0.0.0.0".to_string(),
        admin: Some(FtpUser {
            username: "admin".to_string(),
            password: "admin".to_string()
        }),
        users: vec![
            FtpUser {
                username: "user1".to_string(),
                password: "user1".to_string()
            },
            FtpUser {
                username: "user2".to_string(),
                password: "user2".to_string()
            }
        ]
    };
    assert_eq!(config.port, 2001);
    assert_eq!(config.addr, "0.0.0.0".to_string());
    if let Some(admin) = config.admin {
        assert_eq!(admin.username, "admin".to_string());
        assert_eq!(admin.password, "admin".to_string());
    } else {
        panic!("Admin user not found");
    }
    assert_eq!(config.users[0].username, "user1".to_string());
}

#[test]
fn test_response() {
    let response = Response::new(ResponseCode::Okay, "Hello, World!");
    assert_eq!(response.to_string(), "200 Hello, World!");
}

#[test]
fn test_response_code() {
    let response_code = ResponseCode::Okay;
    let bytes = response_code.to_bytes();
    assert_eq!(bytes, vec![0, 0, 0, 200]);
}
