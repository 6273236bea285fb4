use interface_types::wasm;
use interface_types::{ErrorKind, Instruction, InterfaceType, InterfaceValue, Interpreter};
use std::cell::Cell;
use std::collections::HashMap;

struct Export {
    inputs: Vec<InterfaceType>,
    outputs: Vec<InterfaceType>,
    function: fn(arguments: &[InterfaceValue]) -> Result<Vec<InterfaceValue>, ()>,
    calls: Cell<usize>,
}

impl Export {
    fn new(
        inputs: Vec<InterfaceType>,
        outputs: Vec<InterfaceType>,
        function: fn(arguments: &[InterfaceValue]) -> Result<Vec<InterfaceValue>, ()>,
    ) -> Self {
        Export { inputs, outputs, function, calls: Cell::new(0) }
    }
}

impl wasm::Export for Export {
    fn inputs_cardinality(&self) -> usize {
        self.inputs.len()
    }

    fn outputs_cardinality(&self) -> usize {
        self.outputs.len()
    }

    fn inputs(&self) -> &[InterfaceType] {
        &self.inputs
    }

    fn outputs(&self) -> &[InterfaceType] {
        &self.outputs
    }

    fn call(&self, arguments: &[InterfaceValue]) -> Result<Vec<InterfaceValue>, ()> {
        self.calls.set(self.calls.get() + 1);
        (self.function)(arguments)
    }
}

#[derive(Default)]
struct Memory {
    data: Vec<Cell<u8>>,
}

impl Memory {
    fn new(data: Vec<Cell<u8>>) -> Self {
        Self { data }
    }
}

impl wasm::Memory for Memory {
    fn length(&self) -> usize {
        self.data.len()
    }

    fn read_byte(&self, address: usize) -> u8 {
        self.data[address].get()
    }
}

#[derive(Default)]
struct Instance {
    exports: HashMap<String, Export>,
    memory: Memory,
    has_memory: bool,
    memory_lookups: Cell<usize>,
}

fn sum(arguments: &[InterfaceValue]) -> Result<Vec<InterfaceValue>, ()> {
    let a = arguments[0].to_i32().unwrap();
    let b = arguments[1].to_i32().unwrap();
    Ok(vec![InterfaceValue::I32(a + b)])
}

fn sum_exports() -> HashMap<String, Export> {
    let mut hashmap = HashMap::new();
    hashmap.insert(
        "sum".into(),
        Export::new(vec![InterfaceType::I32, InterfaceType::I32], vec![InterfaceType::I32], sum),
    );
    hashmap
}

fn bytes(data: &[u8]) -> Vec<Cell<u8>> {
    data.iter().map(|b| Cell::new(*b)).collect()
}

impl Instance {
    fn new() -> Self {
        Self {
            exports: sum_exports(),
            memory: Memory::new(vec![]),
            has_memory: true,
            memory_lookups: Cell::new(0),
        }
    }

    fn with_memory(data: &[u8]) -> Self {
        Self { memory: Memory::new(bytes(data)), has_memory: true, ..Default::default() }
    }
}

impl wasm::Instance<Export, Memory> for Instance {
    fn export(&self, export_name: &str) -> Option<&Export> {
        self.exports.get(export_name)
    }

    fn memory(&self, _index: usize) -> Option<&Memory> {
        self.memory_lookups.set(self.memory_lookups.get() + 1);
        if self.has_memory {
            Some(&self.memory)
        } else {
            None
        }
    }
}

fn read_utf8_program() -> Interpreter {
    Interpreter::try_from(&vec![
        Instruction::ArgumentGet(1),
        Instruction::ArgumentGet(0),
        Instruction::ReadUtf8,
    ])
    .unwrap()
}

fn sum_program() -> Interpreter {
    Interpreter::try_from(&vec![
        Instruction::ArgumentGet(1),
        Instruction::ArgumentGet(0),
        Instruction::CallExport("sum".into()),
    ])
    .unwrap()
}

#[test]
fn test_interpreter_from_instructions() {
    let instructions = vec![
        Instruction::ArgumentGet(0),
        Instruction::ArgumentGet(0),
        Instruction::CallExport("foo".into()),
        Instruction::ReadUtf8,
        Instruction::Call(7),
    ];
    let interpreter = Interpreter::try_from(&instructions).unwrap();

    assert_eq!(interpreter.iter().len(), 5);
}

#[test]
fn test_interpreter_argument_get() {
    let interpreter = Interpreter::try_from(&vec![Instruction::ArgumentGet(0)]).unwrap();

    let invocation_inputs = vec![InterfaceValue::I32(42)];
    let instance = Instance::new();
    let run = interpreter.run(&invocation_inputs, &instance);

    assert!(run.is_ok());

    let stack = run.unwrap();

    assert_eq!(stack.as_slice(), &[InterfaceValue::I32(42)]);
}

#[test]
fn test_interpreter_argument_get_invalid_index() {
    let interpreter = Interpreter::try_from(&vec![Instruction::ArgumentGet(1)]).unwrap();

    let invocation_inputs = vec![InterfaceValue::I32(42)];
    let instance = Instance::new();
    let run = interpreter.run(&invocation_inputs, &instance);

    assert!(run.is_err());

    let error = run.unwrap_err();

    assert_eq!(
        error.message(),
        String::from("`arg.get 1` cannot access argument #1 because it doesn't exist.")
    );
    assert_eq!(error.kind, ErrorKind::OutOfRangeArgument { index: 1 });
}

#[test]
fn test_interpreter_argument_get_argument_get() {
    let interpreter =
        Interpreter::try_from(&vec![Instruction::ArgumentGet(0), Instruction::ArgumentGet(1)])
            .unwrap();

    let invocation_inputs = vec![InterfaceValue::I32(7), InterfaceValue::I32(42)];
    let instance = Instance::new();
    let run = interpreter.run(&invocation_inputs, &instance);

    assert!(run.is_ok());

    let stack = run.unwrap();

    assert_eq!(stack.as_slice(), &[InterfaceValue::I32(7), InterfaceValue::I32(42)]);
}

#[test]
fn test_interpreter_call_export() {
    let interpreter = sum_program();

    let invocation_inputs = vec![InterfaceValue::I32(3), InterfaceValue::I32(4)];
    let instance = Instance::new();
    let run = interpreter.run(&invocation_inputs, &instance);

    assert!(run.is_ok());

    let stack = run.unwrap();

    assert_eq!(stack.as_slice(), &[InterfaceValue::I32(7)]);
}

#[test]
fn test_interpreter_call_export_invalid_export_name() {
    let interpreter = Interpreter::try_from(&vec![Instruction::CallExport("bar".into())]).unwrap();

    let invocation_inputs = vec![];
    let instance = Instance::new();
    let run = interpreter.run(&invocation_inputs, &instance);

    assert!(run.is_err());

    let error = run.unwrap_err();

    assert_eq!(
        error.message(),
        String::from(
            r#"`call-export "bar"` cannot call the exported function `bar` because it doesn't exist."#
        )
    );
}

#[test]
fn test_interpreter_call_export_stack_is_too_small() {
    let interpreter = Interpreter::try_from(&vec![
        Instruction::ArgumentGet(0),
        Instruction::CallExport("sum".into()),
    ])
    .unwrap();

    let invocation_inputs = vec![InterfaceValue::I32(3), InterfaceValue::I32(4)];
    let instance = Instance::new();
    let run = interpreter.run(&invocation_inputs, &instance);

    assert!(run.is_err());

    let error = run.unwrap_err();

    assert_eq!(
        error.message(),
        String::from(
            r#"`call-export "sum"` cannot call the exported function `sum` because there is no enough data on the stack for the arguments (needs 2)."#
        )
    );
}

#[test]
fn test_interpreter_call_export_invalid_types_in_the_stack() {
    let interpreter = sum_program();

    let invocation_inputs = vec![InterfaceValue::I32(3), InterfaceValue::I64(4)];
    let instance = Instance::new();
    let run = interpreter.run(&invocation_inputs, &instance);

    assert!(run.is_err());

    let error = run.unwrap_err();

    assert_eq!(
        error.message(),
        String::from(
            r#"`call-export "sum"` cannot call the exported function `sum` because the value types on the stack mismatch the function signature (expects [I32, I32])."#
        )
    );
}

#[test]
fn test_interpreter_call_export_failed_when_calling() {
    let interpreter = sum_program();

    let invocation_inputs = vec![InterfaceValue::I32(3), InterfaceValue::I32(4)];
    let instance = Instance {
        exports: {
            let mut hashmap = HashMap::new();
            hashmap.insert(
                "sum".into(),
                Export::new(
                    vec![InterfaceType::I32, InterfaceType::I32],
                    vec![InterfaceType::I32],
                    |_| Err(()),
                ),
            );
            hashmap
        },
        ..Default::default()
    };
    let run = interpreter.run(&invocation_inputs, &instance);

    assert!(run.is_err());

    let error = run.unwrap_err();

    assert_eq!(
        error.message(),
        String::from(r#"`call-export "sum"` failed when calling the exported function `sum`."#)
    );
}

#[test]
fn test_interpreter_call_export_that_returns_nothing() {
    let interpreter = sum_program();

    let invocation_inputs = vec![InterfaceValue::I32(3), InterfaceValue::I32(4)];
    let instance = Instance {
        exports: {
            let mut hashmap = HashMap::new();
            hashmap.insert(
                "sum".into(),
                Export::new(
                    vec![InterfaceType::I32, InterfaceType::I32],
                    vec![InterfaceType::I32],
                    |_| Ok(vec![]),
                ),
            );
            hashmap
        },
        ..Default::default()
    };
    let run = interpreter.run(&invocation_inputs, &instance);

    assert!(run.is_ok());

    let stack = run.unwrap();

    assert!(stack.is_empty());
}

#[test]
fn test_interpreter_read_utf8() {
    let interpreter = read_utf8_program();

    let invocation_inputs = vec![InterfaceValue::I32(13), InterfaceValue::I32(0)];
    let instance = Instance::with_memory("Hello, World!".as_bytes());
    let run = interpreter.run(&invocation_inputs, &instance);

    assert!(run.is_ok());

    let stack = run.unwrap();

    assert_eq!(stack.as_slice(), &[InterfaceValue::String("Hello, World!".into())]);
}

#[test]
fn test_interpreter_read_utf8_out_of_memory() {
    let interpreter = read_utf8_program();

    let invocation_inputs = vec![InterfaceValue::I32(13), InterfaceValue::I32(0)];
    let instance = Instance::with_memory("Hello!".as_bytes());
    let run = interpreter.run(&invocation_inputs, &instance);

    assert!(run.is_err());

    let error = run.unwrap_err();

    assert_eq!(
        error.message(),
        String::from(
            r#"`read-utf8` failed because it has to read out of the memory bounds (index 13 > memory length 6)."#
        )
    );
    assert_eq!(error.kind, ErrorKind::OutOfBoundsMemoryAccess { end: 13, length: 6 });
}

#[test]
fn test_interpreter_read_utf8_invalid_encoding() {
    let interpreter = read_utf8_program();

    let invocation_inputs = vec![InterfaceValue::I32(4), InterfaceValue::I32(0)];
    let instance = Instance::with_memory(&[0, 159, 146, 150]);
    let run = interpreter.run(&invocation_inputs, &instance);

    assert!(run.is_err());

    let error = run.unwrap_err();

    assert_eq!(
        error.message(),
        String::from(
            r#"`read-utf8` failed because the read string isn't UTF-8 valid (invalid utf-8 sequence of 1 bytes from index 1)."#
        )
    );
    assert!(matches!(error.kind, ErrorKind::InvalidUtf8 { offset: 1, .. }));
}

#[test]
fn test_interpreter_read_utf8_stack_is_too_small() {
    let interpreter =
        Interpreter::try_from(&vec![Instruction::ArgumentGet(0), Instruction::ReadUtf8]).unwrap();

    let invocation_inputs = vec![InterfaceValue::I32(3), InterfaceValue::I32(4)];
    let instance = Instance::new();
    let run = interpreter.run(&invocation_inputs, &instance);

    assert!(run.is_err());

    let error = run.unwrap_err();

    assert_eq!(
        error.message(),
        String::from(r#"`read-utf8` failed because there is no enough data on the stack (needs 2)."#)
    );
}
