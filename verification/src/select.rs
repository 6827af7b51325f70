//! Selection of where the description of a query comes from: a live
//! database, or the offline cache.

use vstd::prelude::*;
use crate::error::{ConfigProblem, ConfigProblemView, Error, ErrorView, Span};
use crate::input::{DataSrc, DataSrcView};

verus! {

/// Which source of descriptions an invocation uses.
#[derive(Clone, Debug, PartialEq, Eq)]
pub enum Selected {
    /// The live database at this URL.
    Live(String),
    /// The offline cache.
    Cache,
}

/// A `Selected`, with each string as the sequence of its characters.
pub ghost enum SelectedView {
    Live(Seq<char>),
    Cache,
}

impl View for Selected {
    type V = SelectedView;

    open spec fn view(&self) -> SelectedView {
        match *self {
            Selected::Live(url) => SelectedView::Live(url@),
            Selected::Cache => SelectedView::Cache,
        }
    }
}

/// The source of descriptions, in this order of priority: a URL that the
/// invocation gives; the URL that the named environment variable holds;
/// the offline cache, where the build has enabled it and the cache file
/// exists. An invocation that asks for the cache gets the cache.
pub open spec fn select_spec(
    data_src: DataSrcView,
    env_value: Option<Seq<char>>,
    cache_exists: bool,
    offline_enabled: bool,
) -> Result<SelectedView, ErrorView> {
    match data_src {
        DataSrcView::DbUrl(url) => Ok(SelectedView::Live(url)),
        DataSrcView::Env(variable) => match env_value {
            Some(url) => Ok(SelectedView::Live(url)),
            None => if cache_exists && offline_enabled {
                Ok(SelectedView::Cache)
            } else {
                Err(
                    ErrorView::Config {
                        span: Span::CallSite,
                        problem: ConfigProblemView::MissingDatabaseUrl { variable },
                    },
                )
            },
        },
        DataSrcView::File => Ok(SelectedView::Cache),
    }
}

/// A selection or the failure that a call ended in, by its characters.
pub open spec fn selected_view(r: Result<Selected, Error>) -> Result<SelectedView, ErrorView> {
    match r {
        Ok(selected) => Ok(selected@),
        Err(e) => Err(e@),
    }
}

impl DataSrc {
    /// Selects the source of descriptions for an invocation. `env_value` is
    /// what the environment holds for the variable that the invocation
    /// names, if it names one.
    pub fn select(&self, env_value: Option<&str>, cache_exists: bool, offline_enabled: bool) -> (r:
        Result<Selected, Error>)
        ensures
            selected_view(r) == select_spec(
                self@,
                match env_value {
                    Some(url) => Some(url@),
                    None => None,
                },
                cache_exists,
                offline_enabled,
            ),
    {
        match self {
            DataSrc::DbUrl(url) => Ok(Selected::Live(url.clone())),
            DataSrc::Env(variable) => match env_value {
                Some(url) => Ok(Selected::Live(url.to_owned())),
                None => if cache_exists && offline_enabled {
                    Ok(Selected::Cache)
                } else {
                    Err(
                        Error::Config {
                            span: Span::CallSite,
                            problem: ConfigProblem::MissingDatabaseUrl {
                                variable: variable.clone(),
                            },
                        },
                    )
                },
            },
            DataSrc::File => Ok(Selected::Cache),
        }
    }
}

} // verus!
