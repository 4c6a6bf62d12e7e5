use carli::command::Execute;
use carli::command::Main;
use carli::error::Error;
use carli::io::Backing;
use carli::io::SeekFrom;
use carli::io::Shared;
use carli::io::Stream;
use std::cell::RefCell;

/// An example application context holding its streams in memory.
struct Application {
    /// The error output stream.
    error: RefCell<Stream>,

    /// The input stream.
    input: RefCell<Stream>,

    /// The name of the user.
    name: String,

    /// The global output stream.
    output: RefCell<Stream>,

    /// The subcommand to execute.
    subcommand: Subcommand,
}

impl Application {
    /// Creates a new instance using in-memory buffers.
    fn new(name: String, subcommand: Subcommand) -> Self {
        Self {
            error: RefCell::new(Vec::new().into()),
            input: RefCell::new(Vec::new().into()),
            name,
            output: RefCell::new(Vec::new().into()),
            subcommand,
        }
    }
}

impl Main for Application {
    type Command = Subcommand;

    fn subcommand(&self) -> &Subcommand {
        &self.subcommand
    }
}

impl Shared for Application {
    // The backing observers are specification-level in the library; this
    // test context holds every role in memory.
    fn error_backing(&self) -> Backing {
        Backing::Memory
    }

    fn input_backing(&self) -> Backing {
        Backing::Memory
    }

    fn output_backing(&self) -> Backing {
        Backing::Memory
    }

    fn error<R, F: FnOnce(&mut Stream) -> R>(&self, operation: F) -> R {
        operation(&mut self.error.borrow_mut())
    }

    fn input<R, F: FnOnce(&mut Stream) -> R>(&self, operation: F) -> R {
        operation(&mut self.input.borrow_mut())
    }

    fn output<R, F: FnOnce(&mut Stream) -> R>(&self, operation: F) -> R {
        operation(&mut self.output.borrow_mut())
    }
}

/// An example subcommand that says goodbye.
struct Goodbye {}

impl Execute<Application> for Goodbye {
    fn execute(&self, context: &Application) -> Result<(), Error> {
        context.output(|stream| {
            stream
                .write(format!("Goodbye, {}.\n", context.name).as_bytes())
                .unwrap();
        });

        Ok(())
    }
}

/// An example subcommand that says hello.
struct Hello {}

impl Execute<Application> for Hello {
    fn execute(&self, context: &Application) -> Result<(), Error> {
        context.output(|stream| {
            stream
                .write(format!("Hello, {}!\n", context.name).as_bytes())
                .unwrap();
        });

        Ok(())
    }
}

/// The subcommands available.
enum Subcommand {
    /// A command to say good bye.
    Goodbye(Goodbye),

    /// A command to say hello.
    Hello(Hello),
}

impl Execute<Application> for Subcommand {
    fn execute(&self, context: &Application) -> Result<(), Error> {
        match self {
            Self::Goodbye(command) => command.execute(context),
            Self::Hello(command) => command.execute(context),
        }
    }
}

#[test]
fn execute_goodbye() {
    let app = Application::new("world".to_string(), Subcommand::Goodbye(Goodbye {}));

    app.execute().unwrap();

    let output = app.output(|stream| {
        stream.seek(SeekFrom::Start(0)).unwrap();
        stream.to_string_lossy()
    });

    assert_eq!(output, "Goodbye, world.\n");
}

#[test]
fn execute_hello() {
    let app = Application::new("world".to_string(), Subcommand::Hello(Hello {}));

    app.execute().unwrap();

    let output = app.output(|stream| {
        stream.seek(SeekFrom::Start(0)).unwrap();
        stream.to_string_lossy()
    });

    assert_eq!(output, "Hello, world!\n");
}
