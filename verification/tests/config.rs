use agent::data_processor::store::{PartialProcessStore, ProcessStore, Store};
use agent::helper::config::{AppConfig, TcpConfig};
use agent::helper::error::{log_error, to_user_friendly, AppError, AppResult};
use agent::ipc::http::common::{BaseResponse, InfoResponse, UpdateProcessResponse};
use agent::ipc::http::endpoints::heartbeat::{heartbeat, HeartbeatRequest, HEARTBEAT_PATH};
use agent::ipc::http::endpoints::info::{get_info, INFO_PATH};
use agent::ipc::http::endpoints::update_process::{update_process, UPDATE_PROCESS_PATH};

#[test]
fn default_configuration() {
    let config = AppConfig::default();
    assert_eq!(config.tcp, TcpConfig { port: 16666, host: "localhost".to_string() });
    assert_eq!(config.agent_dir, "");
    assert_eq!(TcpConfig::default(), TcpConfig { port: 16666, host: "localhost".to_string() });
}

#[test]
fn configuration_without_settings_uses_the_defaults() {
    let config = AppConfig::new(None, None, "/work");
    assert_eq!(config.tcp.port, 16666);
    assert_eq!(config.tcp.host, "localhost");
    assert_eq!(config.agent_dir, "/work/_mito_node_");
}

#[test]
fn configuration_takes_port_and_host_from_the_settings() {
    let config = AppConfig::new(Some("8080"), Some("0.0.0.0"), "/work/");
    assert_eq!(config.tcp.port, 8080);
    assert_eq!(config.tcp.host, "0.0.0.0");
    assert_eq!(config.agent_dir, "/work/_mito_node_");
}

#[test]
fn port_setting_that_is_no_port_is_passed_over() {
    for text in ["", "abc", "65536", "-1", " 80", "80.0"] {
        let config = AppConfig::new(Some(text), None, "");
        assert_eq!(config.tcp.port, 16666, "{:?}", text);
        assert_eq!(config.agent_dir, "_mito_node_");
    }
    assert_eq!(AppConfig::new(Some("0"), None, "/").tcp.port, 0);
}

#[test]
fn port_zero_is_not_valid() {
    let mut config = AppConfig::default();
    assert_eq!(config.validate(), Ok(()));
    config.tcp.port = 0;
    assert_eq!(config.validate(), Err("TCP 端口不能为 0".to_string()));
    config.tcp.port = 1;
    assert_eq!(config.validate(), Ok(()));
    config.tcp.port = 65535;
    assert_eq!(config.validate(), Ok(()));
}

#[test]
fn configuration_is_shown_in_two_lines() {
    let config = AppConfig::new(Some("9000"), Some("example.org"), "/");
    assert_eq!(
        config.print_config(),
        vec!["📋 应用程序配置:".to_string(), "    地址: example.org:9000".to_string()]
    );
}

#[test]
fn errors_are_shown_with_the_label_of_their_kind() {
    assert_eq!(AppError::Io("disk".to_string()).to_string(), "IO 错误: disk");
    assert_eq!(AppError::Config("port".to_string()).to_string(), "配置错误: port");
    assert_eq!(AppError::Network("down".to_string()).to_string(), "网络错误: down");
    assert_eq!(AppError::DataProcessing("x".to_string()).to_string(), "数据处理错误: x");
    assert_eq!(AppError::Serialization("y".to_string()).to_string(), "序列化错误: y");
    assert_eq!(AppError::Unknown("z".to_string()).to_string(), "未知错误: z");
    assert_eq!(AppError::from_text("why"), AppError::Unknown("why".to_string()));
}

#[test]
fn users_are_told_the_kind_of_an_error() {
    assert_eq!(to_user_friendly(&AppError::Io("a".to_string())), "系统 IO 操作失败");
    assert_eq!(to_user_friendly(&AppError::Config("a".to_string())), "配置参数错误");
    assert_eq!(to_user_friendly(&AppError::Network("a".to_string())), "网络连接失败");
    assert_eq!(to_user_friendly(&AppError::DataProcessing("a".to_string())), "数据处理失败");
    assert_eq!(to_user_friendly(&AppError::Serialization("a".to_string())), "数据格式错误");
    assert_eq!(to_user_friendly(&AppError::Unknown("a".to_string())), "未知错误");
}

#[test]
fn errors_are_logged_in_one_line() {
    assert_eq!(
        log_error(&AppError::Network("refused".to_string())),
        "[Agent] ERROR: 错误: 网络错误: refused"
    );
}

#[test]
fn known_actions_are_reported_as_executed() {
    for action in ["start", "stop", "restart"] {
        assert_eq!(
            update_process(action),
            UpdateProcessResponse {
                success: true,
                message: format!("Process {} executed successfully", action),
            }
        );
    }
}

#[test]
fn unknown_actions_are_refused() {
    for action in ["", "Start", "start ", "kill", "restar"] {
        assert_eq!(
            update_process(action),
            UpdateProcessResponse { success: false, message: "Unknown action".to_string() }
        );
    }
}

#[test]
fn info_names_the_agent() {
    assert_eq!(
        get_info(),
        InfoResponse {
            name: "mitojs-agent".to_string(),
            version: "0.1.0".to_string(),
            status: "running".to_string(),
        }
    );
}

#[test]
fn heartbeat_sets_the_time_of_a_registered_worker() {
    let mut store = Store::new();
    store.set(&7, ProcessStore { uds_port: 4000, latest_heartbeat_time: 10 });
    let response = heartbeat(&mut store, HeartbeatRequest { process_id: 7 }, 1700000000);
    assert_eq!(response, BaseResponse { success: true, message: "ok".to_string() });
    assert_eq!(
        store.get(&7),
        Some(ProcessStore { uds_port: 4000, latest_heartbeat_time: 1700000000 })
    );
}

#[test]
fn heartbeat_of_an_unknown_worker_creates_nothing() {
    let mut store = Store::new();
    let response = heartbeat(&mut store, HeartbeatRequest { process_id: 7 }, 1700000000);
    assert_eq!(response, BaseResponse { success: true, message: "ok".to_string() });
    assert_eq!(store.get(&7), None);
    assert!(store.get_data().is_empty());
    store.update(&7, PartialProcessStore { uds_port: Some(1), latest_heartbeat_time: None });
    assert_eq!(store.get(&7), None);
}

#[test]
fn endpoint_paths() {
    assert_eq!(INFO_PATH, "/info");
    assert_eq!(UPDATE_PROCESS_PATH, "/update_process");
    assert_eq!(HEARTBEAT_PATH, "/heartbeat");
}

#[test]
fn errors_are_made_from_texts_and_failures() {
    assert_eq!(AppError::from("why".to_string()), AppError::Unknown("why".to_string()));
    let converted: AppError = "why".to_string().into();
    assert_eq!(converted, AppError::Unknown("why".to_string()));
    assert_eq!(AppError::from_io_text("broken pipe"), AppError::Io("broken pipe".to_string()));
    let failure = serde_json::from_str::<serde_json::Value>("{").unwrap_err();
    assert_eq!(
        AppError::from_json(&failure),
        AppError::Serialization("EOF while parsing an object at line 1 column 1".to_string())
    );
    assert_eq!(
        AppError::from_json(&failure).to_string(),
        "序列化错误: EOF while parsing an object at line 1 column 1"
    );
}

#[test]
fn application_results_carry_application_errors() {
    let fine: AppResult<u16> = Ok(7);
    let failed: AppResult<u16> = Err(AppError::from_text("no"));
    assert_eq!(fine, Ok(7));
    assert_eq!(failed, Err(AppError::Unknown("no".to_string())));
}
