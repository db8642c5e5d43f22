//! Getting an engine ready: which model it starts with, and what can be wrong with
//! it.
use crate::idset::IdSet;
use crate::model::Dup;
use crate::provider_ops::{configured, DiskProvider, ProviderTable};
use crate::text::{
    before_first, concat, concat3, head, lower_name, quote_list, quote_option, quoted_list,
    quoted_option, to_lower_name,
};
use vstd::prelude::*;

verus! {

/// Why an engine cannot be made ready. Each error says what there is to choose from.
#[derive(Debug)]
pub enum InitError {
    /// No model was asked for, and there is none to fall back on.
    NoModelWithDetail {
        /// The model that was asked for.
        model_id: Option<String>,
        /// The models that there are.
        available: Vec<String>,
    },
    /// The provider cannot be used.
    ProviderNotFoundWithDetail {
        /// The provider.
        provider_id: String,
        /// The models that there are.
        available_providers: Vec<String>,
    },
    /// There is no such model.
    ModelInfoFailed(String),
    /// The configuration cannot be read.
    ConfigError(String),
}

/// The mathematical value of an [`InitError`].
#[verifier::ext_equal]
pub enum InitErrorView {
    NoModelWithDetail { model_id: Option<Seq<char>>, available: Seq<Seq<char>> },
    ProviderNotFoundWithDetail { provider_id: Seq<char>, available_providers: Seq<Seq<char>> },
    ModelInfoFailed(Seq<char>),
    ConfigError(Seq<char>),
}

impl View for InitError {
    type V = InitErrorView;

    open spec fn view(&self) -> InitErrorView {
        match self {
            InitError::NoModelWithDetail {
                model_id,
                available,
            } => InitErrorView::NoModelWithDetail {
                model_id: model_id.deep_view(),
                available: available.deep_view(),
            },
            InitError::ProviderNotFoundWithDetail {
                provider_id,
                available_providers,
            } => InitErrorView::ProviderNotFoundWithDetail {
                provider_id: provider_id@,
                available_providers: available_providers.deep_view(),
            },
            InitError::ModelInfoFailed(id) => InitErrorView::ModelInfoFailed(id@),
            InitError::ConfigError(cause) => InitErrorView::ConfigError(cause@),
        }
    }
}

impl InitErrorView {
    /// What is said of an error.
    pub open spec fn message(self) -> Seq<char> {
        match self {
            InitErrorView::NoModelWithDetail { model_id, available } =>
                "未配置 model_id 且无可用默认模型 (指定: "@ + quoted_option(model_id)
                    + ", 可用: "@ + quoted_list(available) + ")"@,
            InitErrorView::ProviderNotFoundWithDetail { provider_id, available_providers } =>
                "Provider 创建失败: "@ + provider_id + " (可用模型: "@ + quoted_list(
                available_providers,
            ) + ")。请检查 API Key 是否配置（环境变量或 .env 文件）"@,
            InitErrorView::ModelInfoFailed(id) => "模型信息获取失败: "@ + id,
            InitErrorView::ConfigError(cause) => "配置加载失败: "@ + cause,
        }
    }
}

impl InitError {
    /// What is said of an error.
    pub fn to_string(&self) -> (res: String)
        ensures
            res@ == self@.message(),
    {
        match self {
            InitError::NoModelWithDetail { model_id, available } => {
                let asked = concat3(
                    "未配置 model_id 且无可用默认模型 (指定: ",
                    quote_option(model_id).as_str(),
                    ", 可用: ",
                );
                concat3(asked.as_str(), quote_list(available).as_str(), ")")
            },
            InitError::ProviderNotFoundWithDetail { provider_id, available_providers } => {
                let opening = concat3(
                    "Provider 创建失败: ",
                    provider_id.as_str(),
                    " (可用模型: ",
                );
                concat3(
                    opening.as_str(),
                    quote_list(available_providers).as_str(),
                    ")。请检查 API Key 是否配置（环境变量或 .env 文件）",
                )
            },
            InitError::ModelInfoFailed(id) => concat("模型信息获取失败: ", id.as_str()),
            InitError::ConfigError(cause) => concat("配置加载失败: ", cause.as_str()),
        }
    }
}

/// Makes sure that the configured providers and models are known. Where any model
/// is known already, the configuration is not looked at again.
pub fn ensure_registered(
    table: &mut ProviderTable,
    config: Result<Option<Vec<DiskProvider>>, String>,
) -> (res: Result<(), InitError>)
    ensures
        old(table)@.models != Set::<Seq<char>>::empty() ==> res is Ok && final(table)@ == old(table)@,
        old(table)@.models == Set::<Seq<char>>::empty() ==> match config {
            Ok(Some(disk)) => res is Ok && final(table)@ == configured(
                old(table)@,
                disk.deep_view(),
            ),
            Ok(None) => res is Ok && final(table)@ == old(table)@,
            Err(cause) => res is Err && res->Err_0@ == InitErrorView::ConfigError(cause@) && final(table)@ == old(table)@,
        },
{
    if !table.models.is_empty() {
        return Ok(());
    }
    match config {
        Ok(Some(disk)) => {
            table.register_configs(&disk);
            Ok(())
        },
        Ok(None) => Ok(()),
        Err(cause) => Err(InitError::ConfigError(cause)),
    }
}

/// The model to fall back on: the one that the configuration names, if there is
/// such a model, as the configuration writes it; else the first there is.
pub open spec fn default_model(models: Seq<Seq<char>>, named: Option<Seq<char>>) -> Option<
    Seq<char>,
> {
    if models.len() == 0 {
        None
    } else {
        match named {
            Some(id) if models.contains(lower_name(id)) => Some(id),
            _ => Some(models.first()),
        }
    }
}

/// The model to fall back on.
pub fn get_default_model_id(models: &IdSet, named: Option<String>) -> (res: Option<String>)
    ensures
        res.deep_view() == default_model(models.listed(), named.deep_view()),
{
    if models.is_empty() {
        return None;
    }
    proof {
        models.lemma_listed();
    }
    if let Some(id) = named {
        if models.contains(to_lower_name(id.as_str()).as_str()) {
            return Some(id);
        }
    }
    Some(models.get(0).dup())
}

/// What an engine starts with.
pub struct InitPlan {
    /// The model.
    pub model_id: String,
    /// The provider to build an instance of.
    pub provider_id: String,
}

/// The model that an engine starts with: the one that was asked for, or else the
/// one to fall back on.
pub open spec fn chosen_model(
    models: Seq<Seq<char>>,
    asked: Option<Seq<char>>,
    named: Option<Seq<char>>,
) -> Option<Seq<char>> {
    match asked {
        Some(id) => Some(id),
        None => default_model(models, named),
    }
}

/// Chooses the model that an engine starts with. `asked` is the model that the
/// caller asks for, `named` the one that the configuration names.
pub fn init_engine(table: &ProviderTable, asked: Option<String>, named: Option<String>) -> (res:
    Result<InitPlan, InitError>)
    ensures
        match chosen_model(table.models.listed(), asked.deep_view(), named.deep_view()) {
            Some(id) => res is Ok && res->Ok_0.model_id@ == id && res->Ok_0.provider_id@
                == before_first(id, '/'),
            None => res is Err && res->Err_0@ == (InitErrorView::NoModelWithDetail {
                model_id: None,
                available: table.models.listed(),
            }),
        },
{
    let chosen = match asked {
        Some(id) => Some(id),
        None => get_default_model_id(&table.models, named),
    };
    match chosen {
        Some(model_id) => {
            let provider_id = head(model_id.as_str(), '/').to_owned();
            Ok(InitPlan { model_id, provider_id })
        },
        None => Err(
            InitError::NoModelWithDetail { model_id: None, available: table.models.to_list() },
        ),
    }
}

/// Checks that an engine can start: an instance of the provider could be built, and
/// the model exists. Returns the model.
pub fn check_init(table: &ProviderTable, plan: InitPlan, built: bool) -> (res: Result<
    String,
    InitError,
>)
    ensures
        !built ==> res is Err && res->Err_0@ == (InitErrorView::ProviderNotFoundWithDetail {
            provider_id: plan.provider_id@,
            available_providers: table.models.listed(),
        }),
        built && !table@.models.contains(lower_name(plan.model_id@)) ==> res is Err && res->Err_0@
            == InitErrorView::ModelInfoFailed(plan.model_id@),
        built && table@.models.contains(lower_name(plan.model_id@)) ==> res is Ok && res->Ok_0@
            == plan.model_id@,
{
    if !built {
        return Err(
            InitError::ProviderNotFoundWithDetail {
                provider_id: plan.provider_id,
                available_providers: table.models.to_list(),
            },
        );
    }
    if table.models.contains(to_lower_name(plan.model_id.as_str()).as_str()) {
        Ok(plan.model_id)
    } else {
        Err(InitError::ModelInfoFailed(plan.model_id))
    }
}

/// A model that is asked for goes before the one that the configuration names, and
/// that one before any other; there is no model to fall back on exactly if none is
/// known.
pub proof fn law_order_of_choice(
    models: Seq<Seq<char>>,
    asked: Option<Seq<char>>,
    named: Option<Seq<char>>,
)
    ensures
        asked is Some ==> chosen_model(models, asked, named) == asked,
        asked is None && named is Some && models.contains(lower_name(named->0)) ==> chosen_model(
            models,
            asked,
            named,
        ) == named,
        chosen_model(models, asked, named) is None <==> asked is None && models.len() == 0,
{
}

/// The model to fall back on is the one that the configuration names where it is known,
/// under the name that the configuration gives it, and the first that is known otherwise.
pub proof fn law_the_model_to_fall_back_on(models: Seq<Seq<char>>, named: Option<Seq<char>>)
    ensures
        models.len() == 0 ==> default_model(models, named) is None,
        models.len() > 0 ==> default_model(models, named) == if named is Some && models.contains(
            lower_name(named->0),
        ) {
            named
        } else {
            Some(models[0])
        },
{
}

/// What is said when an engine cannot start names what was asked for and what there is.
pub proof fn law_what_is_said_when_an_engine_cannot_start(
    model_id: Option<Seq<char>>,
    provider_id: Seq<char>,
    available: Seq<Seq<char>>,
    words: Seq<char>,
)
    ensures
        (InitErrorView::NoModelWithDetail { model_id, available }).message()
            == "未配置 model_id 且无可用默认模型 (指定: "@ + quoted_option(model_id)
            + ", 可用: "@ + quoted_list(available) + ")"@,
        (InitErrorView::ProviderNotFoundWithDetail {
            provider_id,
            available_providers: available,
        }).message() == "Provider 创建失败: "@ + provider_id + " (可用模型: "@ + quoted_list(
            available,
        ) + ")。请检查 API Key 是否配置（环境变量或 .env 文件）"@,
        InitErrorView::ModelInfoFailed(words).message() == "模型信息获取失败: "@ + words,
        InitErrorView::ConfigError(words).message() == "配置加载失败: "@ + words,
{
}

} // verus!
