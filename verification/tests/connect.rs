use sshm::connect::{failure_message, launch, Launch};
use sshm::profile::Profile;

fn sample(port: i32) -> Profile {
    Profile {
        id: 1,
        name: "box".to_string(),
        host: "10.0.0.1".to_string(),
        port,
        username: "root".to_string(),
        password: "s3cret word".to_string(),
    }
}

#[test]
fn launch_hands_the_password_to_ssh() {
    assert_eq!(
        launch(&sample(22)),
        Launch {
            program: "sshpass".to_string(),
            arguments: vec![
                "-p".to_string(),
                "s3cret word".to_string(),
                "ssh".to_string(),
                "root@10.0.0.1".to_string(),
                "-p".to_string(),
                "22".to_string(),
            ],
        }
    );
}

#[test]
fn launch_writes_the_port_in_decimal() {
    assert_eq!(launch(&sample(2222)).arguments[5], "2222");
    assert_eq!(launch(&sample(65535)).arguments[5], "65535");
}

#[test]
fn failure_message_names_the_sample() {
    assert_eq!(failure_message(&sample(22)), "别名=>box root@10.0.0.1:22 连接失败");
    assert_eq!(failure_message(&sample(8022)), "别名=>box root@10.0.0.1:8022 连接失败");
}
