//! Types and request logic of the platform's management API.

pub mod auth;
pub mod client;
pub mod projects;
pub mod runners;
pub mod tokens;
pub mod transport;
pub mod users;

pub use auth::{AuthMethod, Token};
pub use client::{GitLabClient, GitLabClientBuilder};
pub use projects::{CreateProjectRequest, MirrorConfig, Project, ProjectNamespace, Visibility};
pub use runners::{
    RegisterRunnerRequest, RegisterRunnerResponse, Runner, RunnerDetail, RunnerInfo, RunnerStatus,
    RunnerType, UpdateRunnerRequest,
};
pub use tokens::{CreateTokenRequest, PersonalAccessToken, TokenScope};
pub use users::{CreateUserRequest, User, UserRole};
