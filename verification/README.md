# gemma_infer

Inference for a Gemma-style decoder, split in two:

- `src/` is the verified library (Verus). It holds the integer and byte-level
  logic of the model: widening bf16 weights to f32 bit patterns, the causal and
  sliding-window attention mask, the layer and head layout, the names of the
  checkpoint's weights, reading the model's weights from a safetensors file
  (which tensor fills which field, and where the per-layer embedding table
  starts), and locating a token's row of that table.
- `app/` is the program around it: reading the configuration and tokenizer,
  mapping the checkpoint, turning the weights' bit patterns into `f32`
  arrays, and the floating-point arithmetic of the forward pass
  (norms, rotary embedding, attention, feed-forward), built on `ndarray`.
