# erissery

Quantizes HuggingFace models stored as safetensors into GGUF files for
GGML-based runtimes such as llama.cpp. Only Q8_0 quantization is offered;
normalization layers, embeddings and 1-D tensors stay in F32, and I32 and I64
tensors are passed through as-is.

## Layout

- `src/` is the library, verified with Verus:
  - `model_dir`: which files of a model directory are used, and why a
    directory is refused;
  - `hf_config`, `tokenizer`: the model configuration and the tokenizer data
    that GGUF stores;
  - `gguf::tensor_names`: standard GGUF tensor names;
  - `gguf::kv`: metadata key/value pairs;
  - `gguf::writer`: the byte layout of a GGUF file (header, descriptors,
    aligned tensor data);
  - `quantization`: what is done with each tensor, and the Q8_0 block layout;
  - `tensor_file`: the tensors of a parsed safetensors file;
  - `bytes`, `text`: little-endian encodings and string helpers.
- `app/` is the command-line tool: argument parsing, file reading and
  writing, and the float arithmetic of quantization (block scales and
  rounding), which the library takes as inputs.
- `tests/` runs the library on concrete inputs.

Inside the library a 32-bit float is held by its IEEE-754 bit pattern.
