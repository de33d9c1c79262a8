//! Launching a project: the build tool to start and its environment.
use vstd::prelude::*;
use vstd::string::*;
use crate::domain::models::enums::Language;
use crate::infrastructure::errors::InfrastructureError;
use crate::text::{decimal, decimal_text, join_path, owned, path_join, string_views};

verus! {

/// How to run a project.
#[derive(Debug, Clone)]
pub struct RunConfig {
    pub port: Option<u16>,
    pub profile: Option<String>,
    pub debug: bool,
}

impl Default for RunConfig {
    fn default() -> (r: RunConfig)
        ensures
            r.port is None,
            r.profile is None,
            !r.debug,
    {
        RunConfig { port: None, profile: None, debug: false }
    }
}

/// A program to start: its name, its arguments, the directory it runs in,
/// and the environment variables set for it, in order.
#[derive(Debug, Clone)]
pub struct LaunchPlan {
    pub program: String,
    pub args: Vec<String>,
    pub working_dir: String,
    pub env: Vec<(String, String)>,
}

/// The mathematical model of a [`LaunchPlan`].
pub struct LaunchPlanView {
    pub program: Seq<char>,
    pub args: Seq<Seq<char>>,
    pub working_dir: Seq<char>,
    pub env: Seq<(Seq<char>, Seq<char>)>,
}

impl View for LaunchPlan {
    type V = LaunchPlanView;

    open spec fn view(&self) -> LaunchPlanView {
        LaunchPlanView {
            program: self.program@,
            args: string_views(self.args@),
            working_dir: self.working_dir@,
            env: env_views(self.env@),
        }
    }
}

/// The launch of a Kotlin or Java project that has a wrapper: Gradle's
/// `bootRun` when it has the Gradle wrapper, else Maven's `spring-boot:run`.
pub open spec fn jvm_launch(
    project_path: Seq<char>,
    has_gradlew: bool,
    port: Option<u16>,
    profile: Option<Seq<char>>,
    debug: bool,
) -> LaunchPlanView {
    LaunchPlanView {
        program: if has_gradlew { "./gradlew"@ } else { "./mvnw"@ },
        args: if has_gradlew { seq!["bootRun"@] } else { seq!["spring-boot:run"@] },
        working_dir: project_path,
        env: jvm_env(port, profile, debug),
    }
}

/// The launch of a Rust project.
pub open spec fn rust_launch(project_path: Seq<char>, port: Option<u16>, debug: bool) -> LaunchPlanView {
    LaunchPlanView {
        program: "cargo"@,
        args: if debug { seq!["run"@] } else { seq!["run"@, "--release"@] },
        working_dir: project_path,
        env: match port {
            Some(p) => seq![("PORT"@, decimal(p as nat))],
            None => Seq::empty(),
        },
    }
}

pub open spec fn env_views(s: Seq<(String, String)>) -> Seq<(Seq<char>, Seq<char>)> {
    s.map_values(|e: (String, String)| (e.0@, e.1@))
}

/// The debugger options of a JVM started in debug mode.
pub open spec fn jvm_debug_options() -> Seq<char> {
    "-agentlib:jdwp=transport=dt_socket,server=y,suspend=n,address=*:5005"@
}

/// The environment of a JVM project: the port, the profile, the debugger.
pub open spec fn jvm_env(port: Option<u16>, profile: Option<Seq<char>>, debug: bool) -> Seq<(Seq<char>, Seq<char>)> {
    (match port {
        Some(p) => seq![("SERVER_PORT"@, decimal(p as nat))],
        None => Seq::empty(),
    }) + (match profile {
        Some(pr) => seq![("SPRING_PROFILES_ACTIVE"@, pr)],
        None => Seq::empty(),
    }) + (if debug {
        seq![("JAVA_OPTS"@, jvm_debug_options())]
    } else {
        Seq::empty()
    })
}

pub open spec fn opt_string_view(o: Option<String>) -> Option<Seq<char>> {
    match o {
        Some(s) => Some(s@),
        None => None,
    }
}

/// Whatever the debug flag, a port given to a Rust project is passed to it
/// as `PORT`, written in decimal, and its program is `cargo run`, in release
/// mode exactly when not debugging.
pub proof fn lemma_rust_launch_keeps_port(project_path: Seq<char>, port: Option<u16>, debug: bool)
    ensures
        port matches Some(p) ==> rust_launch(project_path, port, debug).env.contains(
            ("PORT"@, decimal(p as nat)),
        ),
        rust_launch(project_path, port, debug).args[0] == "run"@,
        rust_launch(project_path, port, debug).args.contains("--release"@) <==> !debug,
{
    reveal_strlit("run");
    reveal_strlit("--release");
    if let Some(p) = port {
        assert(rust_launch(project_path, port, debug).env[0] == ("PORT"@, decimal(p as nat)));
    }
    if !debug {
        assert(rust_launch(project_path, port, debug).args[1] == "--release"@);
    } else {
        assert("run"@ != "--release"@) by {
            assert("run"@.len() != "--release"@.len());
        }
    }
}

/// Whatever the debug flag, a port given to a Kotlin or Java project is
/// passed to it as `SERVER_PORT`, and a profile as `SPRING_PROFILES_ACTIVE`;
/// debugging adds the debugger options. The Gradle wrapper runs it when
/// there is one, else the Maven wrapper, in the project's directory.
pub proof fn lemma_jvm_launch_keeps_port_and_profile(
    project_path: Seq<char>,
    has_gradlew: bool,
    port: Option<u16>,
    profile: Option<Seq<char>>,
    debug: bool,
)
    ensures
        port matches Some(p) ==> jvm_launch(project_path, has_gradlew, port, profile, debug).env.contains(
            ("SERVER_PORT"@, decimal(p as nat)),
        ),
        profile matches Some(pr) ==> jvm_launch(project_path, has_gradlew, port, profile, debug).env.contains(
            ("SPRING_PROFILES_ACTIVE"@, pr),
        ),
        debug ==> jvm_launch(project_path, has_gradlew, port, profile, debug).env.contains(
            ("JAVA_OPTS"@, jvm_debug_options()),
        ),
        has_gradlew ==> jvm_launch(project_path, has_gradlew, port, profile, debug).program
            == "./gradlew"@,
        !has_gradlew ==> jvm_launch(project_path, has_gradlew, port, profile, debug).program
            == "./mvnw"@,
        jvm_launch(project_path, has_gradlew, port, profile, debug).working_dir == project_path,
{
    let env = jvm_env(port, profile, debug);
    let ps = match port {
        Some(p) => seq![("SERVER_PORT"@, decimal(p as nat))],
        None => Seq::<(Seq<char>, Seq<char>)>::empty(),
    };
    let pr = match profile {
        Some(x) => seq![("SPRING_PROFILES_ACTIVE"@, x)],
        None => Seq::<(Seq<char>, Seq<char>)>::empty(),
    };
    if let Some(p) = port {
        assert(env[0] == ("SERVER_PORT"@, decimal(p as nat)));
    }
    if let Some(x) = profile {
        assert(env[ps.len() as int] == ("SPRING_PROFILES_ACTIVE"@, x));
    }
    if debug {
        assert(env[(ps.len() + pr.len()) as int] == ("JAVA_OPTS"@, jvm_debug_options()));
    }
}

/// Starts projects with their build tools.
pub struct SystemProcessRunner;

impl SystemProcessRunner {
    pub fn new() -> (r: SystemProcessRunner) {
        SystemProcessRunner
    }

    /// Where a project's Gradle wrapper would be.
    pub fn gradle_wrapper_path(&self, project_path: &str) -> (r: String)
        ensures
            r@ == path_join(project_path@, "gradlew"@),
    {
        join_path(project_path, "gradlew")
    }

    /// Where a project's Maven wrapper would be.
    pub fn maven_wrapper_path(&self, project_path: &str) -> (r: String)
        ensures
            r@ == path_join(project_path@, "mvnw"@),
    {
        join_path(project_path, "mvnw")
    }

    /// The launch of a Kotlin or Java project, given which wrappers it has:
    /// the Gradle wrapper's `bootRun` when there is one, else the Maven
    /// wrapper's `spring-boot:run`, else no launch.
    pub fn jvm_plan(&self, project_path: &str, has_gradlew: bool, has_mvnw: bool, config: &RunConfig) -> (r:
        Result<LaunchPlan, InfrastructureError>)
        ensures
            (r is Ok) <==> (has_gradlew || has_mvnw),
            r matches Ok(plan) ==> plan@ == jvm_launch(
                project_path@,
                has_gradlew,
                config.port,
                opt_string_view(config.profile),
                config.debug,
            ),
            r is Err ==> (r matches Err(InfrastructureError::ProcessError(m)) && m@
                == "No build tool found (gradlew or mvnw)"@),
    {
        let (program, arg) = if has_gradlew {
            (owned("./gradlew"), owned("bootRun"))
        } else if has_mvnw {
            (owned("./mvnw"), owned("spring-boot:run"))
        } else {
            return Err(InfrastructureError::ProcessError(owned("No build tool found (gradlew or mvnw)")));
        };
        let mut args: Vec<String> = Vec::new();
        args.push(arg);
        let mut env: Vec<(String, String)> = Vec::new();
        if let Some(port) = config.port {
            env.push((owned("SERVER_PORT"), decimal_text(port as usize)));
        }
        let ghost e1 = env@;
        if let Some(profile) = &config.profile {
            env.push((owned("SPRING_PROFILES_ACTIVE"), profile.clone()));
        }
        let ghost e2 = env@;
        if config.debug {
            env.push(
                (
                    owned("JAVA_OPTS"),
                    owned("-agentlib:jdwp=transport=dt_socket,server=y,suspend=n,address=*:5005"),
                ),
            );
        }
        proof {
            assert(string_views(args@) =~= seq![arg@]);
            assert(env_views(env@) =~= jvm_env(config.port, opt_string_view(config.profile), config.debug));
        }
        Ok(LaunchPlan { program, args, working_dir: owned(project_path), env })
    }

    /// The launch of a Rust project: `cargo run`, in release mode unless
    /// debugging, with the port in `PORT`.
    pub fn rust_plan(&self, project_path: &str, config: &RunConfig) -> (r: LaunchPlan)
        ensures
            r@ == rust_launch(project_path@, config.port, config.debug),
            config.port matches Some(p) ==> r@.env.contains(("PORT"@, decimal(p as nat))),
            config.port is None ==> r@.env.len() == 0,
            r@.program == "cargo"@,
            r@.working_dir == project_path@,
    {
        let mut args: Vec<String> = Vec::new();
        args.push(owned("run"));
        if !config.debug {
            args.push(owned("--release"));
        }
        let mut env: Vec<(String, String)> = Vec::new();
        if let Some(port) = config.port {
            env.push((owned("PORT"), decimal_text(port as usize)));
        }
        proof {
            if config.debug {
                assert(string_views(args@) =~= seq!["run"@]);
            } else {
                assert(string_views(args@) =~= seq!["run"@, "--release"@]);
            }
            if config.port is Some {
                assert(env_views(env@) =~= seq![("PORT"@, decimal(config.port->0 as nat))]);
                assert(env_views(env@)[0] == ("PORT"@, decimal(config.port->0 as nat)));
            } else {
                assert(env_views(env@) =~= Seq::<(Seq<char>, Seq<char>)>::empty());
            }
        }
        LaunchPlan { program: owned("cargo"), args, working_dir: owned(project_path), env }
    }

    /// The launch of a project of the given language (see
    /// [`SystemProcessRunner::jvm_plan`] and [`SystemProcessRunner::rust_plan`]).
    pub fn plan(
        &self,
        project_path: &str,
        language: Language,
        has_gradlew: bool,
        has_mvnw: bool,
        config: &RunConfig,
    ) -> (r: Result<LaunchPlan, InfrastructureError>)
        ensures
            language == Language::Rust ==> (r matches Ok(p) && p@ == rust_launch(
                project_path@,
                config.port,
                config.debug,
            )),
            language != Language::Rust ==> ((r is Ok) <==> (has_gradlew || has_mvnw)),
            language != Language::Rust ==> (r matches Ok(p) ==> p@ == jvm_launch(
                project_path@,
                has_gradlew,
                config.port,
                opt_string_view(config.profile),
                config.debug,
            )),
            r is Err ==> (r matches Err(InfrastructureError::ProcessError(m)) && m@
                == "No build tool found (gradlew or mvnw)"@),
    {
        match language {
            Language::Kotlin | Language::Java => self.jvm_plan(project_path, has_gradlew, has_mvnw, config),
            Language::Rust => Ok(self.rust_plan(project_path, config)),
        }
    }
}

impl Default for SystemProcessRunner {
    fn default() -> (r: SystemProcessRunner) {
        SystemProcessRunner::new()
    }
}

} // verus!
