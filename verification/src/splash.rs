//! The wallpaper of the shutdown splash.

use crate::action::{Command, CommandView};
use crate::text::{decimal, decimal_string, join, same, slash};
use vstd::prelude::*;

verus! {

pub const DEFAULT_WALLPAPER_MODEL: &'static str = "random";

pub const WALLPAPER_OUT_FILE_PATH: &'static str = "/tmp/splash_wallpaper.png";

/// How often the generator is run before its failure is final.
pub const MAX_GENERATION_RETRIES: u8 = 3;

/// Number of particles for a model that has none of its own.
pub const FALLBACK_PARTICLES: u64 = 1000;

/// The models that the generator knows, without the one that stands for a
/// random choice among them.
pub open spec fn concrete_models() -> Seq<Seq<char>> {
    seq![
        "flow"@,
        "clouds"@,
        "islands"@,
        "lightning"@,
        "nearestpoint"@,
        "tangles"@,
        "cellularone"@,
        "squares"@,
        "squares2"@,
        "nearestgradient"@,
    ]
}

/// The models that can be chosen in the menu: the concrete ones, then the
/// random choice.
pub open spec fn wallpaper_models() -> Seq<Seq<char>> {
    concrete_models().push(DEFAULT_WALLPAPER_MODEL@)
}

fn concrete_models_list() -> (models: Vec<String>)
    ensures
        models.deep_view() == concrete_models(),
{
    let mut models: Vec<String> = Vec::new();
    models.push(String::from_str("flow"));
    models.push(String::from_str("clouds"));
    models.push(String::from_str("islands"));
    models.push(String::from_str("lightning"));
    models.push(String::from_str("nearestpoint"));
    models.push(String::from_str("tangles"));
    models.push(String::from_str("cellularone"));
    models.push(String::from_str("squares"));
    models.push(String::from_str("squares2"));
    models.push(String::from_str("nearestgradient"));
    assert(models.deep_view() =~= concrete_models());
    models
}

/// The models that can be chosen in the menu.
pub fn wallpaper_models_list() -> (models: Vec<String>)
    ensures
        models.deep_view() == wallpaper_models(),
{
    let mut models = concrete_models_list();
    let ghost concrete = models.deep_view();
    models.push(String::from_str(DEFAULT_WALLPAPER_MODEL));
    assert(models.deep_view() =~= concrete.push(DEFAULT_WALLPAPER_MODEL@));
    models
}

/// Draws one of `models` with `rand::seq::IndexedRandom::choose` and the
/// thread's generator. Trusted: what is drawn is one of them, and nothing is
/// drawn only from an empty list. Which one comes is left open.
#[verifier::external_body]
fn draw(models: &Vec<String>) -> (drawn: Option<&String>)
    ensures
        match drawn {
            Some(model) => exists|i: int| 0 <= i < models.len() && models[i]@ == model@,
            None => models.len() == 0,
        },
{
    rand::seq::IndexedRandom::choose(models.as_slice(), &mut rand::rng())
}

/// Draws a number with `rand::random`. Trusted: nothing; any number may
/// come.
#[verifier::external_body]
fn random_seed() -> (seed: i32) {
    rand::random::<i32>()
}

/// The model to generate: the configured one, or a concrete one drawn at
/// random where none is configured or the random choice is.
pub fn choose_model(configured: Option<&str>) -> (model: String)
    ensures
        match configured {
            Some(c) if c@ != DEFAULT_WALLPAPER_MODEL@ => model@ == c@,
            _ => exists|i: int| 0 <= i < concrete_models().len() && concrete_models()[i] == model@,
        },
{
    match configured {
        Some(c) => {
            if !same(c, DEFAULT_WALLPAPER_MODEL) {
                return String::from_str(c);
            }
        },
        None => {},
    }
    let models = concrete_models_list();
    match draw(&models) {
        Some(model) => {
            let ghost i = choose|i: int| 0 <= i < models.len() && models[i]@ == model@;
            assert(concrete_models()[i] == models.deep_view()[i]);
            model.clone()
        },
        None => {
            assert(concrete_models()[0] == "flow"@);
            String::from_str("flow")
        },
    }
}

/// Number of particles that suits `model`.
pub open spec fn particles(model: Seq<char>) -> u64 {
    if model == "cellularone"@ || model == "nearestgradient"@ {
        1000
    } else if model == "clouds"@ || model == "islands"@ {
        3000
    } else if model == "flow"@ || model == "lightning"@ || model == "nearestpoint"@ || model
        == "tangles"@ || model == "squares"@ || model == "squares2"@ || model == "random"@ {
        5000
    } else {
        FALLBACK_PARTICLES
    }
}

/// Number of particles that suits `model`.
pub fn particles_amount(model: &str) -> (amount: u64)
    ensures
        amount == particles(model@),
{
    if same(model, "cellularone") || same(model, "nearestgradient") {
        1000
    } else if same(model, "clouds") || same(model, "islands") {
        3000
    } else if same(model, "flow") || same(model, "lightning") || same(model, "nearestpoint")
        || same(model, "tangles") || same(model, "squares") || same(model, "squares2") || same(
        model,
        "random",
    ) {
        5000
    } else {
        FALLBACK_PARTICLES
    }
}

/// Model of the generator's command for a given seed.
pub open spec fn generator_command(model: Seq<char>, width: int, height: int, seed: int) -> CommandView {
    CommandView {
        program: slash(crate::system::QINIT_BINARIES_DIR_PATH@, "procedural_wallpapers"@),
        args: seq![
            "--mode"@,
            model,
            "--output"@,
            WALLPAPER_OUT_FILE_PATH@,
            "-w"@,
            decimal(width),
            "-h"@,
            decimal(height),
            "-s"@,
            decimal(seed),
            "-f"@,
            crate::text::digits(particles(model) as nat),
        ],
    }
}

/// The generator's command for `model` and `seed`.
pub fn wallpaper_command(model: &str, screen_w: u32, screen_h: u32, seed: i32) -> (command:
    Command)
    ensures
        command@ == generator_command(model@, screen_w as int, screen_h as int, seed as int),
{
    let program = join(crate::system::QINIT_BINARIES_DIR_PATH, "procedural_wallpapers");
    let mut command = Command::new(program.as_str());
    command.arg("--mode");
    command.arg(model);
    command.arg("--output");
    command.arg(WALLPAPER_OUT_FILE_PATH);
    command.arg("-w");
    command.arg(decimal_string(screen_w as i64).as_str());
    command.arg("-h");
    command.arg(decimal_string(screen_h as i64).as_str());
    command.arg("-s");
    command.arg(decimal_string(seed as i64).as_str());
    command.arg("-f");
    let mut amount = String::new();
    crate::text::push_digits(&mut amount, particles_amount(model));
    assert(amount@ =~= crate::text::digits(particles(model@) as nat));
    command.arg(amount.as_str());
    assert(command@.args =~= generator_command(
        model@,
        screen_w as int,
        screen_h as int,
        seed as int,
    ).args);
    command
}

/// One run of the generator for `model`, on a screen of the given size,
/// with a seed drawn at random: the seed and the command.
pub fn generate_wallpaper(model: &str, screen_w: u32, screen_h: u32) -> (run: (i32, Command))
    ensures
        run.1@ == generator_command(model@, screen_w as int, screen_h as int, run.0 as int),
{
    let seed = random_seed();
    (seed, wallpaper_command(model, screen_w, screen_h, seed))
}

/// What follows a run of the generator.
#[derive(Debug, Clone, Copy, PartialEq, Eq, Structural)]
pub enum Generation {
    /// The wallpaper is there.
    Done,
    /// Run the generator again, with a new seed.
    Again,
    /// The generator has failed for good.
    Failed,
}

/// What follows run number `count`, counted from zero, of the generator.
pub fn after_generation(count: u8, succeeded: bool) -> (next: Generation)
    ensures
        next == if succeeded {
            Generation::Done
        } else if count + 1 < MAX_GENERATION_RETRIES {
            Generation::Again
        } else {
            Generation::Failed
        },
{
    if succeeded {
        Generation::Done
    } else if count < MAX_GENERATION_RETRIES - 1 {
        Generation::Again
    } else {
        Generation::Failed
    }
}

} // verus!
