//! How the bot is run: serverless, behind a webhook, or polling.
use vstd::prelude::*;

verus! {

#[derive(Debug, Clone, Copy, PartialEq, Eq, Structural)]
pub enum DeploymentMode {
    Lambda,
    Webhook,
    Polling,
}

impl DeploymentMode {
    /// The mode's name as the start-up log shows it.
    pub fn label(&self) -> (r: &'static str)
        ensures
            r@ == match self {
                DeploymentMode::Lambda => "AWS LAMBDA"@,
                DeploymentMode::Webhook => "WEBHOOK (Production)"@,
                DeploymentMode::Polling => "POLLING (Development)"@,
            },
    {
        match self {
            DeploymentMode::Lambda => "AWS LAMBDA",
            DeploymentMode::Webhook => "WEBHOOK (Production)",
            DeploymentMode::Polling => "POLLING (Development)",
        }
    }
}

/// The mode for an environment: serverless where it is one, a webhook
/// where it is a production environment, else polling.
pub fn detect_deployment_mode(lambda: bool, production: bool) -> (r: DeploymentMode)
    ensures
        r == if lambda {
            DeploymentMode::Lambda
        } else if production {
            DeploymentMode::Webhook
        } else {
            DeploymentMode::Polling
        },
{
    if lambda {
        DeploymentMode::Lambda
    } else if production {
        DeploymentMode::Webhook
    } else {
        DeploymentMode::Polling
    }
}

} // verus!
