//! The broker run with the system's Ruby: the checks before it is
//! installed, the files of the installation, the installation as a step
//! function, and the decisions of starting and stopping it.

use crate::effect::strings_view;
use crate::registry::PathSet;
use crate::text::{join2, join3, to_decimal, trim, trimmed};
use vstd::prelude::*;
use vstd::string::*;

verus! {

/// The position of the first occurrence of `c` in `s`, or the length of `s`
/// where it does not occur.
pub open spec fn first_index(s: Seq<char>, c: char) -> int
    decreases s.len(),
{
    if s.len() == 0 || s[0] == c {
        0
    } else {
        1 + first_index(s.drop_first(), c)
    }
}

/// Whether `c` is a decimal digit.
pub open spec fn is_digit(c: char) -> bool {
    '0' as u32 <= c as u32 <= '9' as u32
}

/// The number that the decimal digits `s` stand for.
pub open spec fn digits_value(s: Seq<char>) -> int
    decreases s.len(),
{
    if s.len() == 0 {
        0
    } else {
        digits_value(s.drop_last()) * 10 + (s.last() as u32 - '0' as u32)
    }
}

/// The number that the decimal digits `digits` stand for, if they are
/// digits, at least one, and the number fits in 32 bits.
pub open spec fn digits_number(digits: Seq<char>) -> Option<int> {
    if digits.len() > 0 && (forall|i: int| 0 <= i < digits.len() ==> is_digit(#[trigger] digits[i]))
        && digits_value(digits) <= u32::MAX {
        Some(digits_value(digits))
    } else {
        None
    }
}

/// The number that `s` stands for as an unsigned 32-bit number in decimal
/// notation, with or without a leading plus sign.
pub open spec fn number_of(s: Seq<char>) -> Option<int> {
    if s.len() > 0 && s[0] == '+' {
        digits_number(s.drop_first())
    } else {
        digits_number(s)
    }
}

/// The number that `s` stands for, or zero where it stands for none.
pub open spec fn number_or_zero(s: Seq<char>) -> int {
    match number_of(s) {
        Some(n) => n,
        None => 0,
    }
}

/// The views of the result of a check.
pub open spec fn check_view(r: Result<(), String>) -> Result<(), Seq<char>> {
    match r {
        Ok(_) => Ok(()),
        Err(message) => Err(message@),
    }
}

/// Whether the version that Ruby reports will do: 3.1 or later. `output` is
/// what Ruby printed, or `None` where it could not be run. The version is
/// read as its first two parts, separated by dots; a part that is not a
/// number counts as zero.
pub open spec fn ruby_version_checked(output: Option<Seq<char>>) -> Result<(), Seq<char>> {
    match output {
        None => Err("Ruby is not installed or not in PATH."@),
        Some(version) => {
            let first_dot = first_index(version, '.');
            if first_dot >= version.len() {
                Err("Could not determine Ruby version."@)
            } else {
                let rest = version.subrange(first_dot + 1, version.len() as int);
                let major = number_or_zero(version.subrange(0, first_dot));
                let minor = number_or_zero(rest.subrange(0, first_index(rest, '.')));
                if major > 3 || (major == 3 && minor >= 1) {
                    Ok(())
                } else {
                    Err(
                        "Ruby version 3.1 or greater is required. Found version "@ + version + "."@,
                    )
                }
            }
        },
    }
}

proof fn lemma_first_index(s: Seq<char>, c: char, i: int)
    requires
        0 <= i <= s.len(),
        forall|j: int| 0 <= j < i ==> s[j] != c,
        i == s.len() || s[i] == c,
    ensures
        first_index(s, c) == i,
    decreases i,
{
    if i > 0 {
        let rest = s.drop_first();
        assert forall|j: int| 0 <= j < i - 1 implies rest[j] != c by {
            assert(rest[j] == s[j + 1]);
        }
        if i < s.len() {
            assert(rest[i - 1] == s[i]);
        }
        lemma_first_index(rest, c, i - 1);
    }
}

proof fn lemma_digits_grow(s: Seq<char>, i: int)
    requires
        0 <= i <= s.len(),
        forall|j: int| 0 <= j < s.len() ==> is_digit(#[trigger] s[j]),
    ensures
        0 <= digits_value(s.subrange(0, i)) <= digits_value(s),
    decreases s.len() - i,
{
    if i == s.len() {
        assert(s.subrange(0, i) == s);
        lemma_digits_nonnegative(s);
    } else {
        let front = s.drop_last();
        assert(front.subrange(0, i) == s.subrange(0, i));
        assert forall|j: int| 0 <= j < front.len() implies is_digit(#[trigger] front[j]) by {
            assert(front[j] == s[j]);
        }
        lemma_digits_grow(front, i);
        assert(is_digit(s[s.len() - 1]));
    }
}

proof fn lemma_digits_nonnegative(s: Seq<char>)
    requires
        forall|j: int| 0 <= j < s.len() ==> is_digit(#[trigger] s[j]),
    ensures
        0 <= digits_value(s),
    decreases s.len(),
{
    if s.len() > 0 {
        let front = s.drop_last();
        assert forall|j: int| 0 <= j < front.len() implies is_digit(#[trigger] front[j]) by {
            assert(front[j] == s[j]);
        }
        lemma_digits_nonnegative(front);
        assert(is_digit(s[s.len() - 1]));
    }
}

/// The position of the first occurrence of `c` in `s` at or after `from`.
fn find_char(s: &str, from: usize, c: char) -> (r: usize)
    requires
        from <= s@.len(),
    ensures
        from <= r <= s@.len(),
        r - from == first_index(s@.subrange(from as int, s@.len() as int), c),
{
    let n = s.unicode_len();
    let mut i: usize = from;
    while i < n && s.get_char(i) != c
        invariant
            n == s@.len(),
            from <= i <= n,
            forall|j: int| from <= j < i ==> s@[j] != c,
        decreases n - i,
    {
        i += 1;
    }
    proof {
        let t = s@.subrange(from as int, n as int);
        assert forall|j: int| 0 <= j < i - from implies t[j] != c by {
            assert(t[j] == s@[j + from]);
        }
        if i < n {
            assert(t[i - from] == s@[i as int]);
        }
        lemma_first_index(t, c, i - from);
    }
    i
}

/// The number that the characters of `s` from `from` up to `to` stand for.
fn parse_number(s: &str, from: usize, to: usize) -> (r: Option<u32>)
    requires
        from <= to <= s@.len(),
    ensures
        match r {
            Some(n) => number_of(s@.subrange(from as int, to as int)) == Some(n as int),
            None => number_of(s@.subrange(from as int, to as int)) is None,
        },
{
    let ghost part = s@.subrange(from as int, to as int);
    let mut start: usize = from;
    if from < to && s.get_char(from) == '+' {
        start = from + 1;
    }
    let ghost digits = s@.subrange(start as int, to as int);
    proof {
        if from < to {
            assert(part[0] == s@[from as int]);
        }
        if start > from {
            assert(part.drop_first() == digits);
        } else {
            assert(part == digits);
        }
    }
    assert(number_of(part) == digits_number(digits));
    if start == to {
        return None;
    }
    let mut value: u64 = 0;
    let mut i: usize = start;
    while i < to
        invariant
            from <= start <= i <= to <= s@.len(),
            part == s@.subrange(from as int, to as int),
            digits == s@.subrange(start as int, to as int),
            number_of(part) == digits_number(digits),
            forall|j: int| 0 <= j < i - start ==> is_digit(#[trigger] digits[j]),
            value == digits_value(digits.subrange(0, i - start)),
            value <= u32::MAX,
        decreases to - i,
    {
        let c = s.get_char(i);
        assert(digits[i - start] == c);
        let code: u32 = c as u32;
        if code < 48 || code > 57 {
            return None;
        }
        proof {
            let next = digits.subrange(0, i - start + 1);
            assert(next.drop_last() == digits.subrange(0, i - start));
            assert(next.last() == c);
        }
        let next_value: u64 = value * 10 + (code - 48) as u64;
        if next_value > 0xffff_ffff {
            proof {
                // Whatever follows, the digits stand for no number that fits.
                if forall|j: int| 0 <= j < digits.len() ==> is_digit(#[trigger] digits[j]) {
                    lemma_digits_grow(digits, i - start + 1);
                }
            }
            return None;
        }
        value = next_value;
        i += 1;
    }
    proof {
        assert(digits.subrange(0, to - start) == digits);
    }
    Some(value as u32)
}

/// The number that `part` stands for, or zero.
fn or_zero(part: Option<u32>) -> (r: u32)
    ensures
        r == match part {
            Some(n) => n,
            None => 0u32,
        },
{
    match part {
        Some(n) => n,
        None => 0,
    }
}

/// Whether the version that Ruby reports will do. `output` is what Ruby
/// printed when asked for its version, or `None` where it could not be run.
pub fn check_ruby_version(output: Option<&str>) -> (r: Result<(), String>)
    ensures
        check_view(r) == ruby_version_checked(crate::install::optional_text(output)),
{
    match output {
        None => Err("Ruby is not installed or not in PATH.".to_owned()),
        Some(version) => {
            let n = version.unicode_len();
            proof {
                assert(version@.subrange(0, n as int) == version@);
            }
            let first_dot = find_char(version, 0, '.');
            if first_dot >= n {
                Err("Could not determine Ruby version.".to_owned())
            } else {
                let second_dot = find_char(version, first_dot + 1, '.');
                proof {
                    let rest = version@.subrange(first_dot + 1, n as int);
                    assert(rest.subrange(0, second_dot - first_dot - 1) == version@.subrange(
                        first_dot + 1,
                        second_dot as int,
                    ));
                }
                let major = or_zero(parse_number(version, 0, first_dot));
                let minor = or_zero(parse_number(version, first_dot + 1, second_dot));
                if major > 3 || (major == 3 && minor >= 1) {
                    Ok(())
                } else {
                    Err(
                        join3(
                            "Ruby version 3.1 or greater is required. Found version ",
                            version,
                            ".",
                        ),
                    )
                }
            }
        },
    }
}

/// Whether Bundler is there. `ran` says whether asking Bundler for its
/// version succeeded, or is `None` where Ruby could not be run.
pub fn check_bundler_installed(ran: Option<bool>) -> (r: Result<(), String>)
    ensures
        check_view(r) == if ran == Some(true) {
            Ok::<(), Seq<char>>(())
        } else {
            Err("Bundler is not installed or not in PATH."@)
        },
{
    match ran {
        Some(true) => Ok(()),
        _ => Err("Bundler is not installed or not in PATH.".to_owned()),
    }
}

/// Whether the broker is installed in `broker_dir`: its two files exist.
pub fn check_if_installed(broker_dir: &str, present: &PathSet) -> (r: bool)
    ensures
        r == (present@.contains(broker_dir@ + "/Gemfile"@) && present@.contains(
            broker_dir@ + "/config.ru"@,
        )),
{
    let gemfile = join2(broker_dir, "/Gemfile");
    let config = join2(broker_dir, "/config.ru");
    present.contains(gemfile.as_str()) && present.contains(config.as_str())
}

/// A file to write.
pub struct BrokerFile {
    pub path: String,
    pub content: String,
}

/// The mathematical value of a [`BrokerFile`].
pub struct BrokerFileView {
    pub path: Seq<char>,
    pub content: Seq<char>,
}

impl View for BrokerFile {
    type V = BrokerFileView;

    open spec fn view(&self) -> BrokerFileView {
        BrokerFileView { path: self.path@, content: self.content@ }
    }
}

/// The values of a sequence of files.
pub open spec fn files_view(v: Seq<BrokerFile>) -> Seq<BrokerFileView> {
    Seq::new(v.len(), |i: int| v[i]@)
}

/// The gems of the broker.
pub open spec fn gemfile_base() -> Seq<char> {
    "source 'https://rubygems.org'\n\ngem 'rake'\ngem 'pact_broker'\nif Gem.win_platform?\n  gem 'sqlite3', force_ruby_platform: true\nelse\n  gem 'sqlite3'\nend\ngem 'puma'\ngem \"padrino-core\", \">= 0.16.0.pre3\" # Required for the pact_broker UI.\ngem \"pact-support\"\n# required for ruby 3.4 (removed from std gems)\ngem \"mutex_m\"\ngem \"csv\"\n"@
}

/// The gems that instrument the broker.
pub open spec fn gemfile_telemetry() -> Seq<char> {
    "\ngem \"opentelemetry-api\"\ngem \"opentelemetry-common\"\ngem \"opentelemetry-sdk\"\ngem \"opentelemetry-instrumentation-rack\"\ngem \"opentelemetry-instrumentation-all\"\ngem \"opentelemetry-exporter-otlp\"\n"@
}

/// The rack configuration of the broker.
pub open spec fn rackup_plain() -> Seq<char> {
    "require 'logger'\nrequire 'sequel'\nrequire 'pact_broker'\n\nDATABASE_CREDENTIALS = {adapter: \"sqlite\", database: \"pact_broker_database.sqlite3\", :encoding => 'utf8'}\napp = PactBroker::App.new do | config |\n  config.log_stream = \"stdout\"\n  config.database_connection = Sequel.connect(DATABASE_CREDENTIALS.merge(:logger => config.logger))\nend\n\nrun app\n"@
}

/// The rack configuration of the instrumented broker.
pub open spec fn rackup_telemetry() -> Seq<char> {
    "require_relative 'otel'\nrequire 'logger'\nrequire 'sequel'\nrequire 'pact_broker'\n\nDATABASE_CREDENTIALS = {adapter: \"sqlite\", database: \"pact_broker_database.sqlite3\", :encoding => 'utf8'}\n\napp = PactBroker::App.new do | config |\n  config.log_stream = \"stdout\"\n  config.database_connection = Sequel.connect(DATABASE_CREDENTIALS.merge(:logger => config.logger))\nend\n\nRack::PactBroker::OpenTelemetry.setup(self)\nrun app\n"@
}

/// The setup of the instrumentation.
pub open spec fn telemetry_setup() -> Seq<char> {
    "\nrequire \"opentelemetry/sdk\"\nrequire \"opentelemetry/exporter/otlp\"\nrequire \"opentelemetry/instrumentation/rack\"\nrequire \"opentelemetry/instrumentation/rack/middlewares/stable/event_handler\"\n\nmodule Rack\n  module PactBroker\n    class OpenTelemetry\n      def self.setup(app_builder = nil)\n        ::OpenTelemetry::SDK.configure do |c|\n          c.use \"OpenTelemetry::Instrumentation::Rack\"\n          c.service_name = ENV.fetch(\"OTEL_SERVICE_NAME\", \"pact_broker-standalone\")\n        end\n\n        if app_builder\n          app_builder.use ::Rack::Events, [::OpenTelemetry::Instrumentation::Rack::Middlewares::Stable::EventHandler.new]\n        end\n      end\n\n      at_exit do\n        OpenTelemetry.tracer_provider.shutdown if defined?(OpenTelemetry) && OpenTelemetry.respond_to?(:tracer_provider)\n      end\n    end\n  end\nend\n"@
}

/// The files of an installation in `broker_dir`, in the order in which they
/// are written: the setup of the instrumentation where it is asked for, the
/// gems, the rack configuration.
pub open spec fn broker_files(broker_dir: Seq<char>, otel_enabled: bool) -> Seq<BrokerFileView> {
    if otel_enabled {
        seq![
            BrokerFileView { path: broker_dir + "/otel.rb"@, content: telemetry_setup() },
            BrokerFileView {
                path: broker_dir + "/Gemfile"@,
                content: gemfile_base() + gemfile_telemetry(),
            },
            BrokerFileView { path: broker_dir + "/config.ru"@, content: rackup_telemetry() },
        ]
    } else {
        seq![
            BrokerFileView { path: broker_dir + "/Gemfile"@, content: gemfile_base() },
            BrokerFileView { path: broker_dir + "/config.ru"@, content: rackup_plain() },
        ]
    }
}

/// The files of an installation in `broker_dir`.
pub fn write_gemfile_and_config(broker_dir: &str, otel_enabled: bool) -> (r: Vec<BrokerFile>)
    ensures
        files_view(r@) == broker_files(broker_dir@, otel_enabled),
{
    let mut files: Vec<BrokerFile> = Vec::new();
    let gems = "source 'https://rubygems.org'\n\ngem 'rake'\ngem 'pact_broker'\nif Gem.win_platform?\n  gem 'sqlite3', force_ruby_platform: true\nelse\n  gem 'sqlite3'\nend\ngem 'puma'\ngem \"padrino-core\", \">= 0.16.0.pre3\" # Required for the pact_broker UI.\ngem \"pact-support\"\n# required for ruby 3.4 (removed from std gems)\ngem \"mutex_m\"\ngem \"csv\"\n";
    if otel_enabled {
        files.push(
            BrokerFile {
                path: join2(broker_dir, "/otel.rb"),
                content: "\nrequire \"opentelemetry/sdk\"\nrequire \"opentelemetry/exporter/otlp\"\nrequire \"opentelemetry/instrumentation/rack\"\nrequire \"opentelemetry/instrumentation/rack/middlewares/stable/event_handler\"\n\nmodule Rack\n  module PactBroker\n    class OpenTelemetry\n      def self.setup(app_builder = nil)\n        ::OpenTelemetry::SDK.configure do |c|\n          c.use \"OpenTelemetry::Instrumentation::Rack\"\n          c.service_name = ENV.fetch(\"OTEL_SERVICE_NAME\", \"pact_broker-standalone\")\n        end\n\n        if app_builder\n          app_builder.use ::Rack::Events, [::OpenTelemetry::Instrumentation::Rack::Middlewares::Stable::EventHandler.new]\n        end\n      end\n\n      at_exit do\n        OpenTelemetry.tracer_provider.shutdown if defined?(OpenTelemetry) && OpenTelemetry.respond_to?(:tracer_provider)\n      end\n    end\n  end\nend\n".to_owned(),
            },
        );
        files.push(
            BrokerFile {
                path: join2(broker_dir, "/Gemfile"),
                content: join2(
                    gems,
                    "\ngem \"opentelemetry-api\"\ngem \"opentelemetry-common\"\ngem \"opentelemetry-sdk\"\ngem \"opentelemetry-instrumentation-rack\"\ngem \"opentelemetry-instrumentation-all\"\ngem \"opentelemetry-exporter-otlp\"\n",
                ),
            },
        );
        files.push(
            BrokerFile {
                path: join2(broker_dir, "/config.ru"),
                content: "require_relative 'otel'\nrequire 'logger'\nrequire 'sequel'\nrequire 'pact_broker'\n\nDATABASE_CREDENTIALS = {adapter: \"sqlite\", database: \"pact_broker_database.sqlite3\", :encoding => 'utf8'}\n\napp = PactBroker::App.new do | config |\n  config.log_stream = \"stdout\"\n  config.database_connection = Sequel.connect(DATABASE_CREDENTIALS.merge(:logger => config.logger))\nend\n\nRack::PactBroker::OpenTelemetry.setup(self)\nrun app\n".to_owned(),
            },
        );
    } else {
        files.push(BrokerFile { path: join2(broker_dir, "/Gemfile"), content: gems.to_owned() });
        files.push(
            BrokerFile {
                path: join2(broker_dir, "/config.ru"),
                content: "require 'logger'\nrequire 'sequel'\nrequire 'pact_broker'\n\nDATABASE_CREDENTIALS = {adapter: \"sqlite\", database: \"pact_broker_database.sqlite3\", :encoding => 'utf8'}\napp = PactBroker::App.new do | config |\n  config.log_stream = \"stdout\"\n  config.database_connection = Sequel.connect(DATABASE_CREDENTIALS.merge(:logger => config.logger))\nend\n\nrun app\n".to_owned(),
            },
        );
    }
    assert(files_view(files@) =~= broker_files(broker_dir@, otel_enabled));
    files
}

/// What the caller of a broker operation is to do next.
pub enum BrokerAction {
    /// Run the program with the arguments and capture what it prints.
    Capture { program: String, args: Vec<String> },
    /// Create the directory with its parents and write the files.
    Write { directory: String, files: Vec<BrokerFile> },
    /// Run the program with the arguments in the directory and wait for it.
    RunIn { directory: String, program: String, args: Vec<String> },
    /// The operation is complete.
    Finish,
    /// The operation failed.
    Fail { message: String },
}

/// The mathematical value of a [`BrokerAction`].
pub enum BrokerActionView {
    Capture { program: Seq<char>, args: Seq<Seq<char>> },
    Write { directory: Seq<char>, files: Seq<BrokerFileView> },
    RunIn { directory: Seq<char>, program: Seq<char>, args: Seq<Seq<char>> },
    Finish,
    Fail { message: Seq<char> },
}

impl View for BrokerAction {
    type V = BrokerActionView;

    open spec fn view(&self) -> BrokerActionView {
        match self {
            BrokerAction::Capture { program, args } => BrokerActionView::Capture {
                program: program@,
                args: strings_view(args@),
            },
            BrokerAction::Write { directory, files } => BrokerActionView::Write {
                directory: directory@,
                files: files_view(files@),
            },
            BrokerAction::RunIn { directory, program, args } => BrokerActionView::RunIn {
                directory: directory@,
                program: program@,
                args: strings_view(args@),
            },
            BrokerAction::Finish => BrokerActionView::Finish,
            BrokerAction::Fail { message } => BrokerActionView::Fail { message: message@ },
        }
    }
}

/// What the caller of a broker operation reports.
pub enum BrokerEvent {
    /// The operation is to start.
    Begin,
    /// The program ran; `success` says how it ended, `output` is what it
    /// printed.
    Captured { success: bool, output: String },
    /// The last action was carried out.
    Done,
    /// The program that was waited for has ended.
    Exited { success: bool },
    /// The last action could not be carried out.
    Failed { message: String },
}

/// The mathematical value of a [`BrokerEvent`].
pub enum BrokerEventView {
    Begin,
    Captured { success: bool, output: Seq<char> },
    Done,
    Exited { success: bool },
    Failed { message: Seq<char> },
}

impl View for BrokerEvent {
    type V = BrokerEventView;

    open spec fn view(&self) -> BrokerEventView {
        match self {
            BrokerEvent::Begin => BrokerEventView::Begin,
            BrokerEvent::Captured { success, output } => BrokerEventView::Captured {
                success: *success,
                output: output@,
            },
            BrokerEvent::Done => BrokerEventView::Done,
            BrokerEvent::Exited { success } => BrokerEventView::Exited { success: *success },
            BrokerEvent::Failed { message } => BrokerEventView::Failed { message: message@ },
        }
    }
}

/// How far an installation of the broker has come.
#[derive(Debug, Clone, Copy, PartialEq, Eq, Structural)]
pub enum BrokerInstallState {
    /// Nothing has been asked for yet.
    Idle,
    /// Ruby is being asked for its version.
    CheckingRuby,
    /// Bundler is being asked for its version.
    CheckingBundler,
    /// The files are being written.
    Writing,
    /// The gems are being installed.
    Bundling,
    /// The installation is complete.
    Finished,
    /// The installation failed.
    Failed,
}

/// The failed state, with the action that reports `message`.
pub open spec fn broker_failed(message: Seq<char>) -> (BrokerInstallState, BrokerActionView) {
    (BrokerInstallState::Failed, BrokerActionView::Fail { message })
}

/// What is said of an event that does not answer the action last asked for.
pub open spec fn out_of_order() -> Seq<char> {
    "Unexpected event for the current step"@
}

/// The step that follows the check of Ruby.
pub open spec fn after_ruby_check(output: Option<Seq<char>>) -> (BrokerInstallState, BrokerActionView) {
    match ruby_version_checked(output) {
        Ok(_) => (
            BrokerInstallState::CheckingBundler,
            BrokerActionView::Capture {
                program: "ruby"@,
                args: seq!["-S"@, "bundle"@, "--version"@],
            },
        ),
        Err(message) => broker_failed(message),
    }
}

/// The step that follows the check of Bundler.
pub open spec fn after_bundler_check(
    ran: Option<bool>,
    broker_dir: Option<Seq<char>>,
    otel_enabled: bool,
) -> (BrokerInstallState, BrokerActionView) {
    if ran != Some(true) {
        broker_failed("Bundler is not installed or not in PATH."@)
    } else {
        match broker_dir {
            Some(directory) => (
                BrokerInstallState::Writing,
                BrokerActionView::Write { directory, files: broker_files(directory, otel_enabled) },
            ),
            None => broker_failed("Could not determine home directory."@),
        }
    }
}

/// The next state and action of an installation of the broker into
/// `broker_dir`, which is `None` where the home directory is not known.
///
/// In order: check the version of Ruby, check that Bundler is there, write
/// the files, install the gems.
pub open spec fn broker_install_step(
    otel_enabled: bool,
    broker_dir: Option<Seq<char>>,
    state: BrokerInstallState,
    event: BrokerEventView,
) -> (BrokerInstallState, BrokerActionView) {
    match state {
        BrokerInstallState::Idle => match event {
            BrokerEventView::Begin => (
                BrokerInstallState::CheckingRuby,
                BrokerActionView::Capture {
                    program: "ruby"@,
                    args: seq!["-e"@, "print RUBY_VERSION"@],
                },
            ),
            _ => broker_failed(out_of_order()),
        },
        BrokerInstallState::CheckingRuby => match event {
            BrokerEventView::Captured { success, output } => after_ruby_check(Some(output)),
            BrokerEventView::Failed { message } => after_ruby_check(None),
            _ => broker_failed(out_of_order()),
        },
        BrokerInstallState::CheckingBundler => match event {
            BrokerEventView::Captured { success, output } => after_bundler_check(
                Some(success),
                broker_dir,
                otel_enabled,
            ),
            BrokerEventView::Failed { message } => after_bundler_check(None, broker_dir, otel_enabled),
            _ => broker_failed(out_of_order()),
        },
        BrokerInstallState::Writing => match event {
            BrokerEventView::Done => match broker_dir {
                Some(directory) => (
                    BrokerInstallState::Bundling,
                    BrokerActionView::RunIn {
                        directory,
                        program: "ruby"@,
                        args: seq!["-S"@, "bundle"@, "install"@],
                    },
                ),
                None => broker_failed("Could not determine home directory."@),
            },
            BrokerEventView::Failed { message } => broker_failed(
                "Failed to write Gemfile/config.ru: "@ + message,
            ),
            _ => broker_failed(out_of_order()),
        },
        BrokerInstallState::Bundling => match event {
            BrokerEventView::Exited { success } => if success {
                (BrokerInstallState::Finished, BrokerActionView::Finish)
            } else {
                broker_failed(
                    "\u{26a0}\u{fe0f}  bundle install failed. Please check your Ruby and Bundler setup."@,
                )
            },
            BrokerEventView::Failed { message } => broker_failed("Failed to run bundle install"@),
            _ => broker_failed(out_of_order()),
        },
        BrokerInstallState::Finished => broker_failed(out_of_order()),
        BrokerInstallState::Failed => broker_failed(out_of_order()),
    }
}

/// The failed state, with the action that reports `message`.
fn broker_fail(message: String) -> (r: (BrokerInstallState, BrokerAction))
    ensures
        (r.0, r.1@) == broker_failed(message@),
{
    (BrokerInstallState::Failed, BrokerAction::Fail { message })
}

/// The arguments `-S bundle` and one more.
fn bundle_arguments(last: &str) -> (r: Vec<String>)
    ensures
        strings_view(r@) == seq!["-S"@, "bundle"@, last@],
{
    let mut args: Vec<String> = Vec::new();
    args.push("-S".to_owned());
    args.push("bundle".to_owned());
    args.push(last.to_owned());
    assert(strings_view(args@) =~= seq!["-S"@, "bundle"@, last@]);
    args
}

/// The step that follows the check of Ruby.
fn ruby_checked(output: Option<&str>) -> (r: (BrokerInstallState, BrokerAction))
    ensures
        (r.0, r.1@) == after_ruby_check(crate::install::optional_text(output)),
{
    match check_ruby_version(output) {
        Ok(_) => (
            BrokerInstallState::CheckingBundler,
            BrokerAction::Capture { program: "ruby".to_owned(), args: bundle_arguments("--version") },
        ),
        Err(message) => broker_fail(message),
    }
}

/// The step that follows the check of Bundler.
fn bundler_checked(ran: Option<bool>, broker_dir: Option<&str>, otel_enabled: bool) -> (r: (
    BrokerInstallState,
    BrokerAction,
))
    ensures
        (r.0, r.1@) == after_bundler_check(
            ran,
            crate::install::optional_text(broker_dir),
            otel_enabled,
        ),
{
    match check_bundler_installed(ran) {
        Err(message) => broker_fail(message),
        Ok(_) => match broker_dir {
            Some(directory) => (
                BrokerInstallState::Writing,
                BrokerAction::Write {
                    directory: directory.to_owned(),
                    files: write_gemfile_and_config(directory, otel_enabled),
                },
            ),
            None => broker_fail("Could not determine home directory.".to_owned()),
        },
    }
}

/// One step of the installation of the broker into `broker_dir`, which is
/// `None` where the home directory is not known.
///
/// Start with [`BrokerInstallState::Idle`] and [`BrokerEvent::Begin`]; hand
/// each action's outcome back as the next event, with the state that came
/// with the action.
pub fn install(
    otel_enabled: bool,
    broker_dir: Option<&str>,
    state: BrokerInstallState,
    event: BrokerEvent,
) -> (r: (BrokerInstallState, BrokerAction))
    ensures
        (r.0, r.1@) == broker_install_step(
            otel_enabled,
            crate::install::optional_text(broker_dir),
            state,
            event@,
        ),
{
    match state {
        BrokerInstallState::Idle => match event {
            BrokerEvent::Begin => {
                let mut args: Vec<String> = Vec::new();
                args.push("-e".to_owned());
                args.push("print RUBY_VERSION".to_owned());
                assert(strings_view(args@) =~= seq!["-e"@, "print RUBY_VERSION"@]);
                (
                    BrokerInstallState::CheckingRuby,
                    BrokerAction::Capture { program: "ruby".to_owned(), args },
                )
            },
            _ => broker_fail("Unexpected event for the current step".to_owned()),
        },
        BrokerInstallState::CheckingRuby => match event {
            BrokerEvent::Captured { success, output } => ruby_checked(Some(output.as_str())),
            BrokerEvent::Failed { message } => ruby_checked(None),
            _ => broker_fail("Unexpected event for the current step".to_owned()),
        },
        BrokerInstallState::CheckingBundler => match event {
            BrokerEvent::Captured { success, output } => bundler_checked(
                Some(success),
                broker_dir,
                otel_enabled,
            ),
            BrokerEvent::Failed { message } => bundler_checked(None, broker_dir, otel_enabled),
            _ => broker_fail("Unexpected event for the current step".to_owned()),
        },
        BrokerInstallState::Writing => match event {
            BrokerEvent::Done => match broker_dir {
                Some(directory) => (
                    BrokerInstallState::Bundling,
                    BrokerAction::RunIn {
                        directory: directory.to_owned(),
                        program: "ruby".to_owned(),
                        args: bundle_arguments("install"),
                    },
                ),
                None => broker_fail("Could not determine home directory.".to_owned()),
            },
            BrokerEvent::Failed { message } => broker_fail(
                join2("Failed to write Gemfile/config.ru: ", message.as_str()),
            ),
            _ => broker_fail("Unexpected event for the current step".to_owned()),
        },
        BrokerInstallState::Bundling => match event {
            BrokerEvent::Exited { success } => if success {
                (BrokerInstallState::Finished, BrokerAction::Finish)
            } else {
                broker_fail(
                    "\u{26a0}\u{fe0f}  bundle install failed. Please check your Ruby and Bundler setup.".to_owned(),
                )
            },
            BrokerEvent::Failed { message } => broker_fail("Failed to run bundle install".to_owned()),
            _ => broker_fail("Unexpected event for the current step".to_owned()),
        },
        BrokerInstallState::Finished => broker_fail(
            "Unexpected event for the current step".to_owned(),
        ),
        BrokerInstallState::Failed => broker_fail("Unexpected event for the current step".to_owned()),
    }
}

/// A request to the broker run with the system's Ruby.
#[derive(Debug, Clone, Copy, PartialEq, Eq, Structural)]
pub enum BrokerCommand {
    Install,
    Start,
    Stop,
    Remove,
    Info,
    Nothing,
}

/// What a request to the broker comes to.
#[derive(Debug, Clone, Copy, PartialEq, Eq, Structural)]
pub enum BrokerPlan {
    /// The broker is installed already: say so.
    AlreadyInstalled,
    /// Install the broker.
    Install,
    /// Install the broker, then start it.
    InstallAndStart,
    /// Start the broker.
    Start,
    /// Stop the broker.
    Stop,
    /// Stop the broker, whether or not that works, then remove its directory.
    StopAndRemove,
    /// Say what is known of the broker.
    Info,
    /// Point to the help.
    Hint,
}

/// What a request to the broker comes to, given whether the broker is
/// installed.
pub open spec fn broker_plan(command: BrokerCommand, installed: bool) -> BrokerPlan {
    match command {
        BrokerCommand::Install => if installed {
            BrokerPlan::AlreadyInstalled
        } else {
            BrokerPlan::Install
        },
        BrokerCommand::Start => if installed {
            BrokerPlan::Start
        } else {
            BrokerPlan::InstallAndStart
        },
        BrokerCommand::Stop => BrokerPlan::Stop,
        BrokerCommand::Remove => BrokerPlan::StopAndRemove,
        BrokerCommand::Info => BrokerPlan::Info,
        BrokerCommand::Nothing => BrokerPlan::Hint,
    }
}

/// What a request to the broker comes to, given whether the broker is
/// installed.
pub fn run(command: BrokerCommand, installed: bool) -> (r: BrokerPlan)
    ensures
        r == broker_plan(command, installed),
{
    match command {
        BrokerCommand::Install => if installed {
            BrokerPlan::AlreadyInstalled
        } else {
            BrokerPlan::Install
        },
        BrokerCommand::Start => if installed {
            BrokerPlan::Start
        } else {
            BrokerPlan::InstallAndStart
        },
        BrokerCommand::Stop => BrokerPlan::Stop,
        BrokerCommand::Remove => BrokerPlan::StopAndRemove,
        BrokerCommand::Info => BrokerPlan::Info,
        BrokerCommand::Nothing => BrokerPlan::Hint,
    }
}

/// The arguments with which Ruby starts the broker, writing its process
/// identifier to `pid_file`.
pub fn start_arguments(pid_file: &str) -> (r: Vec<String>)
    ensures
        strings_view(r@) == seq!["-S"@, "bundle"@, "exec"@, "puma"@, "--pidfile"@, pid_file@],
{
    let mut args: Vec<String> = Vec::new();
    args.push("-S".to_owned());
    args.push("bundle".to_owned());
    args.push("exec".to_owned());
    args.push("puma".to_owned());
    args.push("--pidfile".to_owned());
    args.push(pid_file.to_owned());
    assert(strings_view(args@) =~= seq![
        "-S"@,
        "bundle"@,
        "exec"@,
        "puma"@,
        "--pidfile"@,
        pid_file@,
    ]);
    args
}

/// Whether the standard library counts `c` as numeric.
pub uninterp spec fn is_numeric(c: char) -> bool;

/// Asks `char::is_numeric`, which is true of the characters in the general
/// categories for numbers. The contract only names the outcome: it is a
/// function of the character.
#[verifier::external_body]
fn char_is_numeric(c: char) -> (r: bool)
    ensures
        r == is_numeric(c),
{
    c.is_numeric()
}

/// Whether what was read from the file of the process identifier is one:
/// every character is numeric. That holds of the empty text.
pub fn pid_is_written(content: &str) -> (r: bool)
    ensures
        r == forall|i: int| 0 <= i < content@.len() ==> is_numeric(#[trigger] content@[i]),
{
    let n = content.unicode_len();
    let mut i: usize = 0;
    while i < n
        invariant
            n == content@.len(),
            i <= n,
            forall|j: int| 0 <= j < i ==> is_numeric(#[trigger] content@[j]),
        decreases n - i,
    {
        if !char_is_numeric(content.get_char(i)) {
            return false;
        }
        i += 1;
    }
    true
}

/// The process identifier that the file holds: the number that its content
/// stands for, without the white space around it.
pub fn parse_pid(content: &str) -> (r: Option<u32>)
    ensures
        match r {
            Some(pid) => number_of(trimmed(content@)) == Some(pid as int),
            None => number_of(trimmed(content@)) is None,
        },
{
    let text = trim(content);
    let n = text.as_str().unicode_len();
    proof {
        assert(text@.subrange(0, n as int) == text@);
    }
    parse_number(text.as_str(), 0, n)
}

/// The program that ends the process `pid`.
pub open spec fn stop_program(windows: bool) -> Seq<char> {
    if windows {
        "taskkill"@
    } else {
        "kill"@
    }
}

/// The arguments with which [`stop_program`] ends the process `pid`.
pub open spec fn stop_args(windows: bool, pid: u32) -> Seq<Seq<char>> {
    if windows {
        seq!["/F"@, "/PID"@, crate::text::decimal(pid as nat)]
    } else {
        seq![crate::text::decimal(pid as nat)]
    }
}

/// The command line that ends the process `pid`: the program and its
/// arguments.
pub fn stop_command(windows: bool, pid: u32) -> (r: (String, Vec<String>))
    ensures
        r.0@ == stop_program(windows),
        strings_view(r.1@) == stop_args(windows, pid),
{
    let mut args: Vec<String> = Vec::new();
    if windows {
        args.push("/F".to_owned());
        args.push("/PID".to_owned());
        args.push(to_decimal(pid));
        assert(strings_view(args@) =~= stop_args(windows, pid));
        ("taskkill".to_owned(), args)
    } else {
        args.push(to_decimal(pid));
        assert(strings_view(args@) =~= stop_args(windows, pid));
        ("kill".to_owned(), args)
    }
}

} // verus!
