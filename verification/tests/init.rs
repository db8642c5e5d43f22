use fuyao_core::init::{
    check_init, ensure_registered, get_default_model_id, init_engine, InitError,
};
use fuyao_core::provider_ops::{DiskProvider, ProviderTable};

fn provider(id: &str, models: &[&str]) -> DiskProvider {
    DiskProvider {
        id: id.to_string(),
        models: models.iter().map(|m| m.to_string()).collect(),
        usable: true,
    }
}

fn table(providers: Vec<DiskProvider>) -> ProviderTable {
    let mut t = ProviderTable::new();
    ensure_registered(&mut t, Ok(Some(providers))).unwrap();
    t
}

#[test]
fn init_error_display_carries_context() {
    let no_model = InitError::NoModelWithDetail {
        model_id: None,
        available: vec!["deepseek/deepseek-v4-flash".to_string()],
    };
    let msg = no_model.to_string();
    assert!(msg.contains("未配置 model_id"), "{msg}");
    assert!(msg.contains("deepseek/deepseek-v4-flash"), "{msg}");

    let provider_err = InitError::ProviderNotFoundWithDetail {
        provider_id: "deepseek".to_string(),
        available_providers: vec![],
    };
    let msg = provider_err.to_string();
    assert!(msg.contains("deepseek"), "{msg}");
    assert!(msg.contains("API Key"), "{msg}");

    let model_err = InitError::ModelInfoFailed("foo/bar".to_string());
    assert!(model_err.to_string().contains("foo/bar"));

    let cfg_err = InitError::ConfigError("io 错误".to_string());
    assert!(cfg_err.to_string().contains("io 错误"));
}

#[test]
fn init_error_messages_are_exact() {
    let none = InitError::NoModelWithDetail {
        model_id: Some("x\"y".to_string()),
        available: vec!["a/b".to_string(), "c/d".to_string()],
    };
    assert_eq!(
        none.to_string(),
        "未配置 model_id 且无可用默认模型 (指定: Some(\"x\\\"y\"), 可用: [\"a/b\", \"c/d\"])"
    );
    let none = InitError::NoModelWithDetail { model_id: None, available: vec![] };
    assert_eq!(none.to_string(), "未配置 model_id 且无可用默认模型 (指定: None, 可用: [])");
    let missing = InitError::ProviderNotFoundWithDetail {
        provider_id: "p".to_string(),
        available_providers: vec!["p/m".to_string()],
    };
    assert_eq!(
        missing.to_string(),
        "Provider 创建失败: p (可用模型: [\"p/m\"])。请检查 API Key 是否配置（环境变量或 .env 文件）"
    );
    assert_eq!(InitError::ModelInfoFailed("a/b".into()).to_string(), "模型信息获取失败: a/b");
    assert_eq!(InitError::ConfigError("坏".into()).to_string(), "配置加载失败: 坏");
}

#[test]
fn explicit_model_goes_first() {
    let t = table(vec![provider("alpha", &["m1"])]);
    let plan = init_engine(&t, Some("beta/x/y".into()), Some("alpha/m1".into())).ok().unwrap();
    assert_eq!(plan.model_id, "beta/x/y");
    assert_eq!(plan.provider_id, "beta");
}

#[test]
fn configured_model_goes_before_the_first() {
    let t = table(vec![provider("alpha", &["m1", "m2"])]);
    let id = get_default_model_id(&t.models, Some("Alpha/M2".into()));
    assert_eq!(id.as_deref(), Some("Alpha/M2"));
    let id = get_default_model_id(&t.models, Some("gamma/none".into()));
    assert_eq!(id.as_deref(), Some("alpha/m1"));
    let id = get_default_model_id(&t.models, None);
    assert_eq!(id.as_deref(), Some("alpha/m1"));
}

#[test]
fn no_model_at_all_is_an_error() {
    let t = ProviderTable::new();
    assert!(get_default_model_id(&t.models, Some("a/b".into())).is_none());
    let err = init_engine(&t, None, Some("a/b".into())).err().unwrap();
    assert!(matches!(
        err,
        InitError::NoModelWithDetail { model_id: None, available } if available.is_empty()
    ));
}

#[test]
fn provider_and_model_are_checked() {
    let t = table(vec![provider("Alpha", &["M1"])]);
    let plan = init_engine(&t, Some("Alpha/M1".into()), None).ok().unwrap();
    assert_eq!(check_init(&t, plan, true).ok().as_deref(), Some("Alpha/M1"));
    let plan = init_engine(&t, Some("Alpha/M1".into()), None).ok().unwrap();
    assert!(matches!(
        check_init(&t, plan, false),
        Err(InitError::ProviderNotFoundWithDetail { provider_id, available_providers })
            if provider_id == "Alpha" && available_providers == vec!["alpha/m1".to_string()]
    ));
    let plan = init_engine(&t, Some("alpha/other".into()), None).ok().unwrap();
    assert!(matches!(
        check_init(&t, plan, true),
        Err(InitError::ModelInfoFailed(id)) if id == "alpha/other"
    ));
}

#[test]
fn configuration_is_read_once() {
    let mut t = table(vec![provider("alpha", &["m1"])]);
    assert!(ensure_registered(&mut t, Err("坏".into())).is_ok());
    assert!(ensure_registered(&mut t, Ok(Some(vec![provider("beta", &["m2"])]))).is_ok());
    assert!(!t.models.contains("beta/m2"));
    let mut empty = ProviderTable::new();
    assert!(ensure_registered(&mut empty, Ok(None)).is_ok());
    assert!(matches!(
        ensure_registered(&mut empty, Err("坏".into())),
        Err(InitError::ConfigError(cause)) if cause == "坏"
    ));
}
